//! The options of a simulation: values by name, in the order in which the names were first set.

use crate::text::{join, joined, joined_in_two_parts, split, split_undoes_join, texts};
use vstd::prelude::*;
use vstd::string::*;

verus! {

/// A name and its value.
pub type OptionView = (Seq<char>, Seq<char>);

/// The names and values of a sequence of pairs of strings.
pub open spec fn pairs(options: Seq<(String, String)>) -> Seq<OptionView> {
    options.map_values(|o: (String, String)| (o.0@, o.1@))
}

/// The names and values of a slice of pairs of string slices.
pub open spec fn given_pairs(options: Seq<(&str, &str)>) -> Seq<OptionView> {
    options.map_values(|o: (&str, &str)| (o.0@, o.1@))
}

/// The index of the first option of the name, or the number of options where there is none.
pub open spec fn index_of_name(options: Seq<OptionView>, name: Seq<char>) -> int
    decreases options.len(),
{
    if options.len() == 0 {
        0
    } else if options[0].0 == name {
        0
    } else {
        1 + index_of_name(options.drop_first(), name)
    }
}

/// Whether an option of the name is set.
pub open spec fn has_name(options: Seq<OptionView>, name: Seq<char>) -> bool {
    exists|i: int| 0 <= i < options.len() && #[trigger] options[i].0 == name
}

/// The options with one more set: its value takes the place of an earlier value of the same name,
/// and a new name comes last.
pub open spec fn with_option(options: Seq<OptionView>, option: OptionView) -> Seq<OptionView> {
    if has_name(options, option.0) {
        options.update(index_of_name(options, option.0), option)
    } else {
        options.push(option)
    }
}

/// The options with more of them set, one after the other.
pub open spec fn with_options(options: Seq<OptionView>, more: Seq<OptionView>) -> Seq<OptionView>
    decreases more.len(),
{
    if more.len() == 0 {
        options
    } else {
        with_option(with_options(options, more.drop_last()), more.last())
    }
}

/// No name occurs twice.
pub open spec fn names_are_distinct(options: Seq<OptionView>) -> bool {
    forall|i: int, j: int|
        0 <= i < j < options.len() ==> #[trigger] options[i].0 != #[trigger] options[j].0
}

/// The value of each name.
pub open spec fn option_map(options: Seq<OptionView>) -> Map<Seq<char>, Seq<char>> {
    Map::new(
        |name: Seq<char>| has_name(options, name),
        |name: Seq<char>| options[index_of_name(options, name)].1,
    )
}

/// The options as the simulation executable reads them: `name=value`, with commas between.
pub open spec fn options_text(options: Seq<OptionView>) -> Seq<char> {
    joined(assignments(options), ","@)
}

/// Each option as `name=value`.
pub open spec fn assignments(options: Seq<OptionView>) -> Seq<Seq<char>> {
    options.map_values(|o: OptionView| o.0 + "="@ + o.1)
}

/// The index of a name is that of the first option with the name.
proof fn lemma_index_of_name(options: Seq<OptionView>, name: Seq<char>)
    ensures
        0 <= index_of_name(options, name) <= options.len(),
        forall|i: int|
            0 <= i < index_of_name(options, name) ==> (#[trigger] options[i]).0 != name,
        index_of_name(options, name) < options.len() ==> options[index_of_name(
            options,
            name,
        )].0 == name,
        has_name(options, name) <==> index_of_name(options, name) < options.len(),
    decreases options.len(),
{
    if options.len() > 0 && options[0].0 != name {
        let rest = options.drop_first();
        lemma_index_of_name(rest, name);
        let k = index_of_name(rest, name);
        assert forall|i: int| 0 <= i < 1 + k implies (#[trigger] options[i]).0 != name by {
            if i > 0 {
                assert(rest[i - 1] == options[i]);
            }
        }
        if k < rest.len() {
            assert(rest[k] == options[k + 1]);
        }
    }
}

/// An option of a name at an index before which there is none is the first of its name.
proof fn lemma_first_of_name(options: Seq<OptionView>, name: Seq<char>, i: int)
    requires
        0 <= i < options.len(),
        options[i].0 == name,
        forall|j: int| 0 <= j < i ==> (#[trigger] options[j]).0 != name,
    ensures
        index_of_name(options, name) == i,
{
    lemma_index_of_name(options, name);
}

/// Sets an option.
pub fn set_option(options: &mut Vec<(String, String)>, name: &str, value: &str)
    ensures
        pairs(final(options)@) == with_option(pairs(old(options)@), (name@, value@)),
{
    let ghost before = pairs(options@);
    let option = (name.to_string(), value.to_string());
    let mut i: usize = 0;
    while i < options.len()
        invariant
            i <= options@.len(),
            before == pairs(options@),
            option.0@ == name@,
            option.1@ == value@,
            forall|j: int| 0 <= j < i ==> (#[trigger] before[j]).0 != name@,
            before == pairs(old(options)@),
        decreases options@.len() - i,
    {
        assert(before[i as int] == (options@[i as int].0@, options@[i as int].1@));
        if options[i].0 == option.0 {
            proof {
                lemma_first_of_name(before, name@, i as int);
            }
            options.set(i, option);
            assert(pairs(options@) =~= before.update(i as int, (name@, value@)));
            return ;
        }
        i = i + 1;
    }
    assert(!has_name(before, name@));
    options.push(option);
    assert(pairs(options@) =~= before.push((name@, value@)));
}

/// Writes the options as the simulation executable reads them.
pub fn write_options(options: &Vec<(String, String)>) -> (r: String)
    ensures
        r@ == options_text(pairs(options@)),
{
    let mut written: Vec<String> = Vec::new();
    let ghost all = assignments(pairs(options@));
    for i in 0..options.len()
        invariant
            all == assignments(pairs(options@)),
            texts(written@) == all.take(i as int),
    {
        let ghost done = texts(written@);
        let text = options[i].0.clone().concat("=").concat(options[i].1.as_str());
        assert(all[i as int] == text@) by {
            assert(pairs(options@)[i as int] == (options@[i as int].0@, options@[i as int].1@));
        }
        written.push(text);
        assert(texts(written@) =~= done.push(text@));
        assert(all.take(i + 1) =~= all.take(i as int).push(all[i as int]));
    }
    assert(all.take(options@.len() as int) =~= all);
    join(&written, ",")
}

/// Setting an option gives its name its value and leaves the value of every other name.
pub proof fn set_option_sets_one_value(options: Seq<OptionView>, option: OptionView)
    ensures
        option_map(with_option(options, option)) == option_map(options).insert(
            option.0,
            option.1,
        ),
{
    let name = option.0;
    let after = with_option(options, option);
    lemma_index_of_name(options, name);
    let k = index_of_name(options, name);
    assert forall|other: Seq<char>|
        #![trigger has_name(after, other)]
        {
            &&& has_name(after, other) <==> (has_name(options, other) || other == name)
            &&& has_name(after, other) ==> after[index_of_name(after, other)].1 == (if other
                == name {
                option.1
            } else {
                options[index_of_name(options, other)].1
            })
        } by {
        lemma_index_of_name(options, other);
        if other == name {
            assert(after[k].0 == name);
            assert forall|j: int| 0 <= j < k implies (#[trigger] after[j]).0 != name by {
                assert(after[j] == options[j]);
            }
            lemma_first_of_name(after, name, k);
        } else {
            let m = index_of_name(options, other);
            if has_name(options, other) {
                assert(after[m] == options[m]);
                assert forall|j: int| 0 <= j < m implies (#[trigger] after[j]).0 != other by {
                    if j != k {
                        assert(after[j] == options[j]);
                    }
                }
                lemma_first_of_name(after, other, m);
            } else if has_name(after, other) {
                let j = choose|j: int| 0 <= j < after.len() && #[trigger] after[j].0 == other;
                if j != k {
                    assert(after[j] == options[j]);
                }
            }
        }
    }
    let expected = option_map(options).insert(name, option.1);
    assert forall|other: Seq<char>| option_map(after).dom().contains(other)
        == expected.dom().contains(other) by {
        assert(has_name(after, other) <==> (has_name(options, other) || other == name));
    }
    assert forall|other: Seq<char>| option_map(after).dom().contains(other) implies option_map(
        after,
    )[other] == expected[other] by {
        assert(has_name(after, other));
    }
    assert(option_map(after) =~= expected);
}

/// Setting an option does not make a name occur twice.
pub proof fn set_option_keeps_names_distinct(options: Seq<OptionView>, option: OptionView)
    requires
        names_are_distinct(options),
    ensures
        names_are_distinct(with_option(options, option)),
{
    let after = with_option(options, option);
    lemma_index_of_name(options, option.0);
    assert forall|i: int, j: int| 0 <= i < j < after.len() implies #[trigger] after[i].0
        != #[trigger] after[j].0 by {
        if has_name(options, option.0) {
            assert(options[i].0 != options[j].0);
        } else if j < options.len() {
            assert(options[i].0 != options[j].0);
        } else {
            assert(after[i] == options[i]);
        }
    }
}

/// Setting options does not make a name occur twice.
pub proof fn set_options_keeps_names_distinct(options: Seq<OptionView>, more: Seq<OptionView>)
    requires
        names_are_distinct(options),
    ensures
        names_are_distinct(with_options(options, more)),
    decreases more.len(),
{
    if more.len() > 0 {
        set_options_keeps_names_distinct(options, more.drop_last());
        set_option_keeps_names_distinct(with_options(options, more.drop_last()), more.last());
    }
}

/// The last value that a name is given is the one that it has.
pub proof fn last_value_wins(options: Seq<OptionView>, more: Seq<OptionView>, i: int)
    requires
        0 <= i < more.len(),
        forall|j: int| i < j < more.len() ==> (#[trigger] more[j]).0 != more[i].0,
    ensures
        option_map(with_options(options, more)).contains_pair(more[i].0, more[i].1),
    decreases more.len(),
{
    let before = with_options(options, more.drop_last());
    set_option_sets_one_value(before, more.last());
    if i < more.len() - 1 {
        assert(more.drop_last()[i] == more[i]);
        assert(more.last() == more[more.len() - 1]);
        assert forall|j: int| i < j < more.drop_last().len() implies (
        #[trigger] more.drop_last()[j]).0 != more.drop_last()[i].0 by {
            assert(more[j] == more.drop_last()[j]);
        }
        last_value_wins(options, more.drop_last(), i);
    }
}

/// A name that is given no value keeps the one that it had, or has none still.
pub proof fn other_values_stay(options: Seq<OptionView>, more: Seq<OptionView>, name: Seq<char>)
    requires
        !has_name(more, name),
    ensures
        option_map(with_options(options, more)).contains_key(name) == option_map(
            options,
        ).contains_key(name),
        option_map(options).contains_key(name) ==> option_map(with_options(options, more))[name]
            == option_map(options)[name],
    decreases more.len(),
{
    if more.len() > 0 {
        assert(more.last() == more[more.len() - 1]);
        assert(!has_name(more.drop_last(), name)) by {
            if has_name(more.drop_last(), name) {
                let j = choose|j: int|
                    0 <= j < more.drop_last().len() && #[trigger] more.drop_last()[j].0 == name;
                assert(more[j].0 == name);
            }
        }
        other_values_stay(options, more.drop_last(), name);
        set_option_sets_one_value(with_options(options, more.drop_last()), more.last());
    }
}

/// The options can be read back from their text: between the commas stands one `name=value` for
/// each option, in order, as long as neither names nor values hold a comma.
pub proof fn options_are_read_back(options: Seq<OptionView>)
    requires
        options.len() > 0,
        forall|i: int|
            0 <= i < options.len() ==> !(#[trigger] options[i]).0.contains(',')
                && !options[i].1.contains(','),
    ensures
        split(options_text(options), ',') == assignments(options),
{
    reveal_strlit(",");
    reveal_strlit("=");
    let all = assignments(options);
    assert forall|i: int| 0 <= i < all.len() implies !(#[trigger] all[i]).contains(',') by {
        let name = options[i].0;
        let value = options[i].1;
        assert(all[i] == name + "="@ + value);
        assert forall|j: int| 0 <= j < all[i].len() implies #[trigger] all[i][j] != ',' by {
            if j < name.len() {
                assert(all[i][j] == name[j]);
            } else if j > name.len() {
                assert(all[i][j] == value[j - name.len() - 1]);
            }
        }
    }
    split_undoes_join(all, ',');
    assert(","@ =~= seq![',']);
}

/// Setting options in two goes is setting all of them in one.
pub proof fn set_options_in_two_goes(
    options: Seq<OptionView>,
    a: Seq<OptionView>,
    b: Seq<OptionView>,
)
    ensures
        with_options(with_options(options, a), b) == with_options(options, a + b),
    decreases b.len(),
{
    if b.len() == 0 {
        assert(a + b =~= a);
    } else {
        set_options_in_two_goes(options, a, b.drop_last());
        assert((a + b).drop_last() =~= a + b.drop_last());
    }
}

/// The last option of a name.
proof fn lemma_last_of_name(options: Seq<OptionView>, name: Seq<char>) -> (i: int)
    requires
        has_name(options, name),
    ensures
        0 <= i < options.len(),
        options[i].0 == name,
        forall|j: int| i < j < options.len() ==> (#[trigger] options[j]).0 != name,
    decreases options.len(),
{
    let k = choose|k: int| 0 <= k < options.len() && #[trigger] options[k].0 == name;
    if options.last().0 == name {
        options.len() - 1
    } else {
        let rest = options.drop_last();
        assert(rest[k].0 == name);
        let i = lemma_last_of_name(rest, name);
        assert forall|j: int| i < j < options.len() implies (#[trigger] options[j]).0 != name by {
            if j < rest.len() {
                assert(rest[j] == options[j]);
            }
        }
        i
    }
}

/// Options that are set keep their places: the names that were there stay where they were.
proof fn lemma_names_stay(options: Seq<OptionView>, more: Seq<OptionView>)
    ensures
        options.len() <= with_options(options, more).len(),
        forall|i: int|
            0 <= i < options.len() ==> (#[trigger] with_options(options, more)[i]).0
                == options[i].0,
        (forall|j: int| 0 <= j < more.len() ==> has_name(options, (#[trigger] more[j]).0))
            ==> with_options(options, more).len() == options.len(),
    decreases more.len(),
{
    if more.len() > 0 {
        let rest = more.drop_last();
        let before = with_options(options, rest);
        lemma_names_stay(options, rest);
        lemma_index_of_name(before, more.last().0);
        if forall|j: int| 0 <= j < more.len() ==> has_name(options, (#[trigger] more[j]).0) {
            assert forall|j: int| 0 <= j < rest.len() implies has_name(
                options,
                (#[trigger] rest[j]).0,
            ) by {
                assert(rest[j] == more[j]);
            }
            assert(has_name(options, more[more.len() - 1].0));
            let k = choose|k: int| 0 <= k < options.len() && #[trigger] options[k].0
                == more.last().0;
            assert(before[k].0 == more.last().0);
        }
    }
}

/// Setting the same options twice changes no value: every name has the value that it had after the
/// first time, and where no name occurs twice, the options are the same, in the same order.
pub proof fn setting_twice_changes_no_value(options: Seq<OptionView>, more: Seq<OptionView>)
    ensures
        option_map(with_options(with_options(options, more), more)) == option_map(
            with_options(options, more),
        ),
        names_are_distinct(options) ==> with_options(with_options(options, more), more)
            == with_options(options, more),
{
    let once = with_options(options, more);
    let twice = with_options(once, more);
    assert forall|name: Seq<char>|
        #![trigger option_map(twice).contains_key(name)]
        #![trigger option_map(once).contains_key(name)]
        #![trigger option_map(once)[name]]
        {
            &&& option_map(twice).contains_key(name) == option_map(once).contains_key(name)
            &&& option_map(once).contains_key(name) ==> option_map(twice)[name] == option_map(
                once,
            )[name]
        } by {
        if has_name(more, name) {
            let i = lemma_last_of_name(more, name);
            last_value_wins(options, more, i);
            last_value_wins(once, more, i);
        } else {
            other_values_stay(once, more, name);
        }
    }
    assert(option_map(twice) =~= option_map(once));
    if names_are_distinct(options) {
        assert forall|j: int| 0 <= j < more.len() implies has_name(
            once,
            (#[trigger] more[j]).0,
        ) by {
            let i = lemma_last_of_name(more, more[j].0);
            last_value_wins(options, more, i);
        }
        lemma_names_stay(once, more);
        set_options_keeps_names_distinct(options, more);
        assert forall|i: int| 0 <= i < once.len() implies #[trigger] twice[i] == once[i] by {
            let name = once[i].0;
            assert(twice[i].0 == name);
            assert forall|j: int| 0 <= j < i implies (#[trigger] twice[j]).0 != name by {
                assert(once[j].0 != once[i].0);
            }
            lemma_first_of_name(once, name, i);
            lemma_first_of_name(twice, name, i);
            assert(option_map(once).contains_key(name));
        }
        assert(twice =~= once);
    }
}

/// The names and values of pairs are those of each pair, in order, as they are.
pub proof fn pairs_are_those_of_each_pair(
    strings: Seq<(String, String)>,
    slices: Seq<(&str, &str)>,
)
    ensures
        pairs(strings).len() == strings.len(),
        forall|i: int|
            0 <= i < strings.len() ==> (#[trigger] pairs(strings)[i]) == (
                strings[i].0@,
                strings[i].1@,
            ),
        given_pairs(slices).len() == slices.len(),
        forall|i: int|
            0 <= i < slices.len() ==> (#[trigger] given_pairs(slices)[i]) == (
                slices[i].0@,
                slices[i].1@,
            ),
{
}

/// An option that is set is there with its value, whatever its name and its value hold, and every
/// option of another name is there exactly if it was.
pub proof fn set_option_is_there(options: Seq<OptionView>, option: OptionView, other: OptionView)
    requires
        other.0 != option.0,
    ensures
        with_option(options, option).contains(option),
        with_option(options, option).contains(other) <==> options.contains(other),
{
    let after = with_option(options, option);
    lemma_index_of_name(options, option.0);
    let k = index_of_name(options, option.0);
    assert(after[k] == option);
    if options.contains(other) {
        let i = choose|i: int| 0 <= i < options.len() && options[i] == other;
        assert(after[i] == other);
    }
    if after.contains(other) {
        let i = choose|i: int| 0 <= i < after.len() && after[i] == other;
        assert(options[i] == other);
    }
}

/// The option is the last of its name among those that are set, at the index `i`.
pub open spec fn is_last_setting(more: Seq<OptionView>, i: int, option: OptionView) -> bool {
    &&& 0 <= i < more.len()
    &&& more[i] == option
    &&& forall|j: int| i < j < more.len() ==> (#[trigger] more[j]).0 != option.0
}

/// Of options whose names occur once, after more were set, exactly these are there: what was set
/// last of each name that was set, and what was there of every other name. Each name occurs once
/// still.
pub proof fn options_are_those_set_last(
    options: Seq<OptionView>,
    more: Seq<OptionView>,
    option: OptionView,
)
    requires
        forall|i: int, j: int|
            0 <= i < j < options.len() ==> #[trigger] options[i].0 != #[trigger] options[j].0,
    ensures
        with_options(options, more).contains(option) <==> {
            ||| exists|i: int| #[trigger] is_last_setting(more, i, option)
            ||| options.contains(option) && forall|j: int|
                0 <= j < more.len() ==> (#[trigger] more[j]).0 != option.0
        },
        forall|i: int, j: int|
            0 <= i < j < with_options(options, more).len() ==> #[trigger] with_options(
                options,
                more,
            )[i].0 != #[trigger] with_options(options, more)[j].0,
    decreases more.len(),
{
    set_options_keeps_names_distinct(options, more);
    if more.len() > 0 {
        let rest = more.drop_last();
        let before = with_options(options, rest);
        let after = with_options(options, more);
        let last = more.last();
        options_are_those_set_last(options, rest, option);
        assert(last == more[more.len() - 1]);
        if option.0 == last.0 {
            lemma_index_of_name(before, last.0);
            let k = index_of_name(before, last.0);
            assert(after[k] == last);
            if after.contains(option) {
                let i = choose|i: int| 0 <= i < after.len() && after[i] == option;
                assert(i == k);
                assert(is_last_setting(more, more.len() - 1, option));
            }
            if exists|i: int| #[trigger] is_last_setting(more, i, option) {
                let i = choose|i: int| #[trigger] is_last_setting(more, i, option);
                assert(i == more.len() - 1);
            }
        } else {
            set_option_is_there(before, last, option);
            if exists|i: int| #[trigger] is_last_setting(more, i, option) {
                let i = choose|i: int| #[trigger] is_last_setting(more, i, option);
                assert forall|j: int| i < j < rest.len() implies (#[trigger] rest[j]).0
                    != option.0 by {
                    assert(rest[j] == more[j]);
                }
                assert(is_last_setting(rest, i, option));
            }
            if exists|i: int| #[trigger] is_last_setting(rest, i, option) {
                let i = choose|i: int| #[trigger] is_last_setting(rest, i, option);
                assert forall|j: int| i < j < more.len() implies (#[trigger] more[j]).0
                    != option.0 by {
                    if j < rest.len() {
                        assert(rest[j] == more[j]);
                    }
                }
                assert(is_last_setting(more, i, option));
            }
            assert((forall|j: int| 0 <= j < more.len() ==> (#[trigger] more[j]).0 != option.0)
                <==> (forall|j: int|
                0 <= j < rest.len() ==> (#[trigger] rest[j]).0 != option.0)) by {
                assert forall|j: int| 0 <= j < rest.len() implies (#[trigger] rest[j])
                    == more[j] by {}
                if forall|j: int| 0 <= j < rest.len() ==> (#[trigger] rest[j]).0 != option.0 {
                    assert forall|j: int| 0 <= j < more.len() implies (#[trigger] more[j]).0
                        != option.0 by {
                        if j < rest.len() {
                            assert(rest[j] == more[j]);
                        }
                    }
                }
            }
        }
    }
}

/// The text of an option is its name, `=` and its value, whatever they hold. The text of options in
/// two parts is that of the first part, a comma, and that of the second. No options have no text.
pub proof fn options_text_in_two_parts(
    a: Seq<OptionView>,
    b: Seq<OptionView>,
    name: Seq<char>,
    value: Seq<char>,
)
    ensures
        options_text(seq![(name, value)]) == name.push('=') + value,
        options_text(Seq::<OptionView>::empty()).len() == 0,
        a.len() > 0 && b.len() > 0 ==> options_text(a + b) == options_text(a).push(',')
            + options_text(b),
{
    reveal_strlit(",");
    reveal_strlit("=");
    let one = seq![(name, value)];
    joined_in_two_parts(assignments(one), assignments(one), ","@);
    assert(assignments(one)[0] =~= name.push('=') + value);
    joined_in_two_parts(assignments(a), assignments(b), ","@);
    assert(assignments(a + b) =~= assignments(a) + assignments(b));
    assert(a.len() > 0 && b.len() > 0 ==> options_text(a + b) =~= options_text(a).push(',')
        + options_text(b));
}

} // verus!
