//! Identifier sanitizer: schema names become type names and field names.

use crate::text::{same_text, slice_of};
use inflector::Inflector;
use vstd::prelude::*;
use vstd::string::*;

verus! {

/// The snake-case form that the `inflector` crate gives a name. Nothing is
/// known of it here but that it is a function of the name.
pub uninterp spec fn snake_case(name: Seq<char>) -> Seq<char>;

/// The uppercase mapping that the standard library gives a character. Nothing
/// is known of it here but that it is a function of the character.
pub uninterp spec fn uppercase(c: char) -> Seq<char>;

/// Calls `inflector::Inflector::to_snake_case` on a string slice.
///
/// Assumed, not proved: the call returns, and what it returns depends on the
/// characters of `name` alone. The conversion walks the characters once,
/// lowers each and puts a separator between words; it reads no state beside
/// its argument.
#[verifier::external_body]
fn to_snake_case(name: &str) -> (r: String)
    ensures
        r@ == snake_case(name@),
{
    name.to_snake_case()
}

/// Calls `char::to_uppercase` and collects the characters it yields.
///
/// Assumed, not proved: the characters depend on `c` alone. They are the
/// uppercase mapping of `c` in the Unicode tables that the standard library
/// carries, whatever the locale.
#[verifier::external_body]
fn to_uppercase(c: char) -> (r: String)
    ensures
        r@ == uppercase(c),
{
    c.to_uppercase().collect()
}

/// The two words that cannot stand as a field name.
pub open spec fn is_reserved_word(name: Seq<char>) -> bool {
    name == "return"@ || name == "type"@
}

/// A snake-case name with a trailing underscore where it is a reserved word.
pub open spec fn escaped(name: Seq<char>) -> Seq<char> {
    if is_reserved_word(name) {
        name + "_"@
    } else {
        name
    }
}

/// The field name of a schema member.
pub open spec fn field_name(member_name: Seq<char>) -> Seq<char> {
    escaped(snake_case(member_name))
}

/// Appends an underscore to a reserved word and leaves any other name alone.
pub fn escape_reserved_word(name: String) -> (r: String)
    ensures
        r@ == escaped(name@),
{
    if same_text(name.as_str(), "return") || same_text(name.as_str(), "type") {
        name.concat("_")
    } else {
        name
    }
}

/// Turns the name of a schema member into a field name: snake case, with a
/// reserved word escaped by a trailing underscore.
pub fn generate_field_name(member_name: &str) -> (r: String)
    ensures
        r@ == field_name(member_name@),
{
    escape_reserved_word(to_snake_case(member_name))
}

/// An escaped name is never one of the reserved words: no field is called
/// `return` or `type`. A reserved word gains its underscore, and any other
/// name stays as it is.
pub proof fn lemma_escaped_is_not_reserved(name: Seq<char>)
    ensures
        !is_reserved_word(escaped(name)),
        !is_reserved_word(name) ==> escaped(name) == name,
        name == "return"@ ==> escaped(name) == "return_"@,
        name == "type"@ ==> escaped(name) == "type_"@,
{
    reveal_strlit("return");
    reveal_strlit("type");
    reveal_strlit("_");
    reveal_strlit("return_");
    reveal_strlit("type_");
    if is_reserved_word(name) {
        assert(escaped(name).len() == name.len() + 1);
        assert(escaped(name)[name.len() as int] == '_');
    }
    if name == "return"@ {
        assert(escaped(name) =~= "return_"@);
    }
    if name == "type"@ {
        assert(escaped(name) =~= "type_"@);
    }
}

/// A word with its first character in upper case.
pub open spec fn capitalized(word: Seq<char>) -> Seq<char> {
    if word.len() == 0 {
        word
    } else {
        uppercase(word[0]) + word.subrange(1, word.len() as int)
    }
}

/// Puts the first character of a word in upper case.
pub fn capitalize_first(word: &str) -> (r: String)
    ensures
        r@ == capitalized(word@),
{
    let n = word.unicode_len();
    if n == 0 {
        word.to_owned()
    } else {
        let head = to_uppercase(word.get_char(0));
        let tail = slice_of(word, 1, n);
        head.concat(tail.as_str())
    }
}

/// A name with every underscore taken out.
pub open spec fn without_underscores(name: Seq<char>) -> Seq<char> {
    name.filter(|c: char| c != '_')
}

/// Takes every underscore out of a name.
pub fn strip_underscores(name: &str) -> (r: String)
    ensures
        r@ == without_underscores(name@),
{
    let n = name.unicode_len();
    let mut out = String::new();
    let mut i: usize = 0;
    while i < n
        invariant
            n == name@.len(),
            i <= n,
            out@ == without_underscores(name@.subrange(0, i as int)),
        decreases n - i,
    {
        let c = name.get_char(i);
        proof {
            let pred = |c: char| c != '_';
            let before = name@.subrange(0, i as int);
            assert(name@.subrange(0, i + 1) == before.push(name@[i as int]));
            Seq::lemma_filter_push(before, name@[i as int], pred);
        }
        if c != '_' {
            let piece = slice_of(name, i, i + 1);
            proof {
                assert(name@.subrange(i as int, i + 1) == seq![name@[i as int]]);
                assert(out@ + seq![name@[i as int]] == out@.push(name@[i as int]));
            }
            out.append(piece.as_str());
        }
        i = i + 1;
    }
    proof {
        assert(name@.subrange(0, n as int) == name@);
        assert(Seq::<char>::empty().filter(|c: char| c != '_') == Seq::<char>::empty()) by {
            reveal(Seq::filter);
        }
    }
    out
}

/// The names that would collide with a name the emitted module already uses,
/// each with the name that takes its place.
pub open spec fn collision_table() -> Seq<(Seq<char>, Seq<char>)> {
    seq![
        ("Error"@, "S3Error"@),
        ("CancelSpotFleetRequests"@, "EC2CancelSpotFleetRequests"@),
        ("Option"@, "RDSOption"@),
    ]
}

/// The replacement that the first `upto` rows of a table hold for a name.
pub open spec fn replacement_in(
    table: Seq<(Seq<char>, Seq<char>)>,
    name: Seq<char>,
    upto: int,
) -> Option<Seq<char>>
    decreases upto,
{
    if upto <= 0 {
        None
    } else {
        match replacement_in(table, name, upto - 1) {
            Some(found) => Some(found),
            None => if table[upto - 1].0 == name {
                Some(table[upto - 1].1)
            } else {
                None
            },
        }
    }
}

/// A name after the collision table: its replacement where the table has one.
pub open spec fn disambiguated(name: Seq<char>) -> Seq<char> {
    match replacement_in(collision_table(), name, collision_table().len() as int) {
        Some(other) => other,
        None => name,
    }
}

/// The type name of a schema shape: capitalized, without underscores, and
/// moved out of the way of the names in the collision table.
pub open spec fn sanitized_name(shape_name: Seq<char>) -> Seq<char> {
    disambiguated(without_underscores(capitalized(shape_name)))
}

/// The collision table as values.
pub fn collisions() -> (table: Vec<(&'static str, &'static str)>)
    ensures
        table@.len() == collision_table().len(),
        forall|i: int|
            0 <= i < table@.len() ==> (#[trigger] table@[i]).0@ == collision_table()[i].0
                && table@[i].1@ == collision_table()[i].1,
{
    let mut table: Vec<(&'static str, &'static str)> = Vec::new();
    table.push(("Error", "S3Error"));
    table.push(("CancelSpotFleetRequests", "EC2CancelSpotFleetRequests"));
    table.push(("Option", "RDSOption"));
    table
}

/// Applies the collision table to a name that is already capitalized and
/// free of underscores.
pub fn disambiguate(name: String) -> (r: String)
    ensures
        r@ == disambiguated(name@),
{
    let table = collisions();
    let mut i: usize = 0;
    while i < table.len()
        invariant
            i <= table@.len(),
            table@.len() == collision_table().len(),
            forall|k: int|
                0 <= k < table@.len() ==> (#[trigger] table@[k]).0@ == collision_table()[k].0
                    && table@[k].1@ == collision_table()[k].1,
            replacement_in(collision_table(), name@, i as int) is None,
        decreases table@.len() - i,
    {
        if same_text(table[i].0, name.as_str()) {
            proof {
                lemma_replacement_found(collision_table(), name@, i as int, table@.len() as int);
            }
            return table[i].1.to_owned();
        }
        i = i + 1;
    }
    name
}

/// Once a row matches and no earlier row does, the rows after it change
/// nothing.
pub proof fn lemma_replacement_found(
    table: Seq<(Seq<char>, Seq<char>)>,
    name: Seq<char>,
    at: int,
    upto: int,
)
    requires
        0 <= at < upto <= table.len(),
        replacement_in(table, name, at) is None,
        table[at].0 == name,
    ensures
        replacement_in(table, name, upto) == Some(table[at].1),
    decreases upto - at,
{
    if upto > at + 1 {
        lemma_replacement_found(table, name, at, upto - 1);
    }
}

/// What the collision table gives is a name of its own or the name it was
/// given, and in neither case a name that the table moves out of the way.
pub proof fn lemma_disambiguated_avoids_collisions(name: Seq<char>)
    ensures
        forall|k: int|
            0 <= k < collision_table().len() ==> disambiguated(name) != (
            #[trigger] collision_table()[k]).0,
{
    reveal_with_fuel(replacement_in, 4);
    reveal_strlit("Error");
    reveal_strlit("S3Error");
    reveal_strlit("CancelSpotFleetRequests");
    reveal_strlit("EC2CancelSpotFleetRequests");
    reveal_strlit("Option");
    reveal_strlit("RDSOption");
    let table = collision_table();
    assert(table[0].0.len() == 5 && table[1].0.len() == 23 && table[2].0.len() == 6);
    assert(table[0].1.len() == 7 && table[1].1.len() == 26 && table[2].1.len() == 9);
}

/// No shape gets the type name `Error`, `CancelSpotFleetRequests` or
/// `Option`, whatever it is called in the schema.
pub proof fn lemma_type_names_avoid_collisions(shape_name: Seq<char>)
    ensures
        sanitized_name(shape_name) != "Error"@,
        sanitized_name(shape_name) != "CancelSpotFleetRequests"@,
        sanitized_name(shape_name) != "Option"@,
{
    lemma_disambiguated_avoids_collisions(without_underscores(capitalized(shape_name)));
    let table = collision_table();
    assert(table[0].0 == "Error"@);
    assert(table[1].0 == "CancelSpotFleetRequests"@);
    assert(table[2].0 == "Option"@);
}

/// Gives a shape's schema name the form of a type name that collides with
/// nothing else in the emitted module.
pub fn mutate_type_name(shape_name: &str) -> (r: String)
    ensures
        r@ == sanitized_name(shape_name@),
{
    let capitalized = capitalize_first(shape_name);
    let stripped = strip_underscores(capitalized.as_str());
    disambiguate(stripped)
}

/// The name of the wrapper type that carries a shape as a stream.
pub open spec fn streaming_name(name: Seq<char>) -> Seq<char> {
    "Streaming"@ + name
}

/// Names the wrapper type for a shape that is used as a stream.
pub fn mutate_type_name_for_streaming(name: &str) -> (r: String)
    ensures
        r@ == streaming_name(name@),
{
    "Streaming".to_owned().concat(name)
}

/// The name of the error type that belongs to an operation or shape name.
pub open spec fn error_name(name: Seq<char>) -> Seq<char> {
    sanitized_name(name) + "Error"@
}

/// Names the error type for an operation or shape.
pub fn error_type_name(name: &str) -> (r: String)
    ensures
        r@ == error_name(name@),
{
    mutate_type_name(name).concat("Error")
}

} // verus!
