use om_rs::expression::OMCExpression;

#[test]
fn expressions_are_written_as_the_server_reads_them() {
    assert_eq!(OMCExpression::Quit.to_string(), "quit()");
    assert_eq!(OMCExpression::GetErrorString.to_string(), "getErrorString()");
    let load = OMCExpression::LoadFile { file: "/home/user/Test.mo".to_string() };
    assert_eq!(load.to_string(), "loadFile(\"/home/user/Test.mo\")");
    let build = OMCExpression::BuildModel { name: "Test".to_string() };
    assert_eq!(build.to_string(), "buildModel(Test)");
}

#[test]
fn different_expressions_have_different_texts() {
    let texts = [
        OMCExpression::Quit.to_string(),
        OMCExpression::GetErrorString.to_string(),
        OMCExpression::LoadFile { file: "".to_string() }.to_string(),
        OMCExpression::LoadFile { file: "a".to_string() }.to_string(),
        OMCExpression::BuildModel { name: "".to_string() }.to_string(),
        OMCExpression::BuildModel { name: "a".to_string() }.to_string(),
    ];
    for i in 0..texts.len() {
        for j in 0..i {
            assert_ne!(texts[i], texts[j]);
        }
    }
}
