//! The expressions that the server evaluates.

use vstd::prelude::*;
use vstd::string::*;

verus! {

/// Enum of supported OMC expressions.
#[derive(Debug, Clone)]
pub enum OMCExpression {
    /// Ends the server.
    Quit,
    /// Asks for the messages of the errors since it was last asked.
    GetErrorString,
    /// Loads the models of a file.
    LoadFile { file: String },
    /// Builds the simulation executable of a model.
    BuildModel { name: String },
}

impl OMCExpression {
    /// The text that the server reads.
    pub open spec fn text(self) -> Seq<char> {
        match self {
            OMCExpression::Quit => "quit()"@,
            OMCExpression::GetErrorString => "getErrorString()"@,
            OMCExpression::LoadFile { file } => "loadFile(\""@ + file@ + "\")"@,
            OMCExpression::BuildModel { name } => "buildModel("@ + name@ + ")"@,
        }
    }

    /// The same expression, with the same argument.
    pub open spec fn same_as(self, other: OMCExpression) -> bool {
        match self {
            OMCExpression::Quit => other is Quit,
            OMCExpression::GetErrorString => other is GetErrorString,
            OMCExpression::LoadFile { file } => other is LoadFile && other->file@ == file@,
            OMCExpression::BuildModel { name } => other is BuildModel && other->name@ == name@,
        }
    }

    /// Writes the expression as the server reads it.
    pub fn to_string(&self) -> (r: String)
        ensures
            r@ == self.text(),
    {
        match self {
            OMCExpression::Quit => "quit()".to_string(),
            OMCExpression::GetErrorString => "getErrorString()".to_string(),
            OMCExpression::LoadFile { file } => {
                "loadFile(\"".to_string().concat(file.as_str()).concat("\")")
            },
            OMCExpression::BuildModel { name } => {
                "buildModel(".to_string().concat(name.as_str()).concat(")")
            },
        }
    }
}

/// The letter that the text of an expression begins with.
spec fn first_letter(e: OMCExpression) -> char {
    match e {
        OMCExpression::Quit => 'q',
        OMCExpression::GetErrorString => 'g',
        OMCExpression::LoadFile { .. } => 'l',
        OMCExpression::BuildModel { .. } => 'b',
    }
}

/// The text of an expression begins with its letter, and holds the argument at a fixed place.
proof fn lemma_text_layout(e: OMCExpression)
    ensures
        e.text()[0] == first_letter(e),
        e is LoadFile ==> e->file@ == e.text().subrange(10, e.text().len() - 2),
        e is BuildModel ==> e->name@ == e.text().subrange(11, e.text().len() - 1),
{
    match e {
        OMCExpression::Quit => reveal_strlit("quit()"),
        OMCExpression::GetErrorString => reveal_strlit("getErrorString()"),
        OMCExpression::LoadFile { file } => {
            reveal_strlit("loadFile(\"");
            reveal_strlit("\")");
            assert(e.text()[0] == "loadFile(\""@[0]);
            assert(file@ =~= e.text().subrange(10, e.text().len() - 2));
        },
        OMCExpression::BuildModel { name } => {
            reveal_strlit("buildModel(");
            reveal_strlit(")");
            assert(e.text()[0] == "buildModel("@[0]);
            assert(name@ =~= e.text().subrange(11, e.text().len() - 1));
        },
    }
}

/// The server can tell any two expressions apart: expressions with the same text are the same.
pub proof fn text_determines_expression(a: OMCExpression, b: OMCExpression)
    requires
        a.text() == b.text(),
    ensures
        a.same_as(b),
{
    lemma_text_layout(a);
    lemma_text_layout(b);
}

/// What the server is sent is a call: the name of the function, then the argument between brackets
/// as it is, character for character, whatever it holds. The path of a file stands between
/// quotation marks, the name of a model does not.
pub proof fn text_is_a_call_with_the_argument(e: OMCExpression, i: int)
    ensures
        e is Quit ==> e.text() == seq!['q', 'u', 'i', 't', '(', ')'],
        e is GetErrorString ==> e.text() == "getErrorString"@ + seq!['(', ')'],
        e is LoadFile ==> {
            &&& e.text().len() == e->file@.len() + 12
            &&& ("loadFile"@ + seq!['(', '"']).is_prefix_of(e.text())
            &&& seq!['"', ')'].is_suffix_of(e.text())
            &&& 0 <= i < e->file@.len() ==> e.text()[i + 10] == e->file@[i]
        },
        e is BuildModel ==> {
            &&& e.text().len() == e->name@.len() + 12
            &&& ("buildModel"@ + seq!['(']).is_prefix_of(e.text())
            &&& e.text().last() == ')'
            &&& 0 <= i < e->name@.len() ==> e.text()[i + 11] == e->name@[i]
        },
{
    reveal_strlit("quit()");
    reveal_strlit("getErrorString()");
    reveal_strlit("getErrorString");
    reveal_strlit("loadFile(\"");
    reveal_strlit("loadFile");
    reveal_strlit("\")");
    reveal_strlit("buildModel(");
    reveal_strlit("buildModel");
    reveal_strlit(")");
}

} // verus!
