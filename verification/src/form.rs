//! Request parameters in the `application/x-www-form-urlencoded` syntax.

use crate::text::{is_white_space, same_text, trimmed, trimmed_end, trimmed_start};
use vstd::prelude::*;
use vstd::utf8::encode_utf8;

verus! {

/// The digit of a value below 16, in upper case.
pub open spec fn hex_digit(value: int) -> char {
    if value < 10 {
        (value + '0' as int) as char
    } else {
        (value - 10 + 'A' as int) as char
    }
}

/// The bytes that stand for themselves: letters, digits, `*`, `-`, `.`, `_`.
pub open spec fn stands_for_itself(byte: u8) -> bool {
    ||| 'A' as u8 <= byte <= 'Z' as u8
    ||| 'a' as u8 <= byte <= 'z' as u8
    ||| '0' as u8 <= byte <= '9' as u8
    ||| byte == '*' as u8
    ||| byte == '-' as u8
    ||| byte == '.' as u8
    ||| byte == '_' as u8
}

/// How one byte of a name or a value is written.
pub open spec fn encoded_byte(byte: u8) -> Seq<char> {
    if stands_for_itself(byte) {
        seq![byte as char]
    } else if byte == ' ' as u8 {
        seq!['+']
    } else {
        seq!['%', hex_digit(byte as int / 16), hex_digit(byte as int % 16)]
    }
}

/// How the bytes of a name or a value are written.
pub open spec fn encoded_bytes(bytes: Seq<u8>) -> Seq<char>
    decreases bytes.len(),
{
    if bytes.len() == 0 {
        seq![]
    } else {
        encoded_bytes(bytes.drop_last()) + encoded_byte(bytes.last())
    }
}

/// How a name and its value are written.
pub open spec fn pair_text(pair: (Seq<char>, Seq<char>)) -> Seq<char> {
    encoded_bytes(encode_utf8(pair.0)) + seq!['='] + encoded_bytes(encode_utf8(pair.1))
}

/// A list of names and values as a form.
pub open spec fn form_text(pairs: Seq<(Seq<char>, Seq<char>)>) -> Seq<char>
    decreases pairs.len(),
{
    if pairs.len() == 0 {
        seq![]
    } else if pairs.len() == 1 {
        pair_text(pairs[0])
    } else {
        form_text(pairs.drop_last()) + seq!['&'] + pair_text(pairs.last())
    }
}

/// The names and values that `form_urlencoded::parse` reads from a form.
pub uninterp spec fn form_pairs(raw: Seq<u8>) -> Seq<(Seq<char>, Seq<char>)>;

/// The texts of a list of pairs of strings.
pub open spec fn pair_texts(pairs: Seq<(String, String)>) -> Seq<(Seq<char>, Seq<char>)> {
    Seq::new(pairs.len(), |i: int| (pairs[i].0@, pairs[i].1@))
}

/// Calls `form_urlencoded::parse`. Claimed: what it reads depends on the
/// bytes alone, and it reads back the pairs of every form written in the
/// standard way.
#[verifier::external_body]
fn parse_pairs(raw: &[u8]) -> (res: Vec<(String, String)>)
    ensures
        pair_texts(res@) == form_pairs(raw@),
        forall|pairs: Seq<(Seq<char>, Seq<char>)>|
            raw@ == encode_utf8(#[trigger] form_text(pairs)) ==> pair_texts(res@) == pairs,
{
    form_urlencoded::parse(raw).into_owned().collect()
}

/// The value of `name`: where it occurs more than once, the last one.
pub open spec fn value_of<V>(pairs: Seq<(Seq<char>, V)>, name: Seq<char>) -> Option<V>
    decreases pairs.len(),
{
    if pairs.len() == 0 {
        None
    } else if pairs.last().0 == name {
        Some(pairs.last().1)
    } else {
        value_of(pairs.drop_last(), name)
    }
}

/// The value of `name` without surrounding white space; a blank value counts
/// as absent.
pub open spec fn field_of(pairs: Seq<(Seq<char>, Seq<char>)>, name: Seq<char>) -> Option<
    Seq<char>,
> {
    match value_of(pairs, name) {
        Some(value) if trimmed(value).len() > 0 => Some(trimmed(value)),
        _ => None,
    }
}

/// The text of an optional string slice.
pub open spec fn optional_str(s: Option<&str>) -> Option<Seq<char>> {
    match s {
        Some(s) => Some(s@),
        None => None,
    }
}

/// The parameters of a request.
pub struct FormParams {
    pairs: Vec<(String, String)>,
}

impl View for FormParams {
    type V = Seq<(Seq<char>, Seq<char>)>;

    closed spec fn view(&self) -> Seq<(Seq<char>, Seq<char>)> {
        pair_texts(self.pairs@)
    }
}

impl FormParams {
    /// Reads the parameters of a query string or a form body.
    pub fn parse(raw: &[u8]) -> (res: FormParams)
        ensures
            res@ == form_pairs(raw@),
            forall|pairs: Seq<(Seq<char>, Seq<char>)>|
                raw@ == encode_utf8(#[trigger] form_text(pairs)) ==> res@ == pairs,
    {
        FormParams { pairs: parse_pairs(raw) }
    }

    /// The value of `name`, as it was sent.
    pub fn value(&self, name: &str) -> (res: Option<&str>)
        ensures
            optional_str(res) == value_of(self@, name@),
    {
        let mut i: usize = self.pairs.len();
        assert(self@.take(i as int) =~= self@);
        while i > 0
            invariant
                i <= self.pairs@.len(),
                self@ == pair_texts(self.pairs@),
                value_of(self@, name@) == value_of(self@.take(i as int), name@),
            decreases i,
        {
            i -= 1;
            let ghost front = self@.take(i as int + 1);
            assert(front.drop_last() =~= self@.take(i as int));
            assert(front.last() == (self.pairs@[i as int].0@, self.pairs@[i as int].1@));
            if same_text(self.pairs[i].0.as_str(), name) {
                return Some(self.pairs[i].1.as_str());
            }
        }
        None
    }

    /// The value of `name` without surrounding white space, if there is
    /// anything left of it then.
    pub fn get(&self, name: &str) -> (res: Option<&str>)
        ensures
            optional_str(res) == field_of(self@, name@),
    {
        match self.value(name) {
            Some(value) => {
                let value = value.trim();
                if value.is_empty() {
                    None
                } else {
                    Some(value)
                }
            },
            None => None,
        }
    }
}

/// The last value of a parameter counts, whatever stands elsewhere.
pub proof fn last_value_counts<V>(pairs: Seq<(Seq<char>, V)>, name: Seq<char>, i: int)
    requires
        0 <= i < pairs.len(),
        pairs[i].0 == name,
        forall|j: int| i < j < pairs.len() ==> (#[trigger] pairs[j]).0 != name,
    ensures
        value_of(pairs, name) == Some(pairs[i].1),
    decreases pairs.len(),
{
    if i < pairs.len() - 1 {
        assert(pairs[pairs.len() - 1].0 != name);
        let front = pairs.drop_last();
        assert forall|j: int| i < j < front.len() implies (#[trigger] front[j]).0 != name by {
            assert(front[j] == pairs[j]);
        }
        last_value_counts(front, name, i);
    }
}

/// A parameter that is not there has no value.
pub proof fn absent_parameter_has_no_value<V>(pairs: Seq<(Seq<char>, V)>, name: Seq<char>)
    requires
        forall|i: int| 0 <= i < pairs.len() ==> (#[trigger] pairs[i]).0 != name,
    ensures
        value_of(pairs, name) is None,
    decreases pairs.len(),
{
    if pairs.len() > 0 {
        assert(pairs[pairs.len() - 1].0 != name);
        let front = pairs.drop_last();
        assert forall|i: int| 0 <= i < front.len() implies (#[trigger] front[i]).0 != name by {
            assert(front[i] == pairs[i]);
        }
        absent_parameter_has_no_value(front, name);
    }
}

/// Whether `s` consists of white space alone.
pub open spec fn is_blank(s: Seq<char>) -> bool {
    forall|i: int| 0 <= i < s.len() ==> is_white_space(#[trigger] s[i])
}

proof fn start_is_blank(s: Seq<char>)
    ensures
        ({
            let t = trimmed_start(s);
            &&& t.len() <= s.len()
            &&& s.skip(s.len() - t.len()) == t
            &&& is_blank(s.take(s.len() - t.len()))
            &&& t.len() > 0 ==> !is_white_space(t[0])
        }),
    decreases s.len(),
{
    if s.len() > 0 && is_white_space(s.first()) {
        let rest = s.drop_first();
        start_is_blank(rest);
        let t = trimmed_start(s);
        let n = s.len() - t.len();
        assert(s.skip(n) =~= rest.skip(n - 1));
        assert forall|i: int| 0 <= i < n implies is_white_space(#[trigger] s.take(n)[i]) by {
            if i > 0 {
                assert(rest.take(n - 1)[i - 1] == s.take(n)[i]);
            }
        }
    } else {
        assert(s.skip(0) =~= s);
    }
}

proof fn end_is_blank(s: Seq<char>)
    ensures
        ({
            let t = trimmed_end(s);
            &&& t.len() <= s.len()
            &&& s.take(t.len() as int) == t
            &&& is_blank(s.skip(t.len() as int))
            &&& t.len() > 0 ==> !is_white_space(t.last())
        }),
    decreases s.len(),
{
    if s.len() > 0 && is_white_space(s.last()) {
        let rest = s.drop_last();
        end_is_blank(rest);
        let n = trimmed_end(s).len() as int;
        assert(s.take(n) =~= rest.take(n));
        assert forall|i: int| 0 <= i < s.skip(n).len() implies is_white_space(
            #[trigger] s.skip(n)[i],
        ) by {
            if i < s.len() - n - 1 {
                assert(rest.skip(n)[i] == s.skip(n)[i]);
            }
        }
    } else {
        assert(s.take(s.len() as int) =~= s);
    }
}

/// What is read of a parameter is its value without the white space around:
/// the value is made of white space, what is read, and white space, and what
/// is read neither starts nor ends with any. Nothing is read just if there is
/// no value, or nothing but white space in it.
pub proof fn field_is_the_value_without_white_space_around(
    pairs: Seq<(Seq<char>, Seq<char>)>,
    name: Seq<char>,
)
    ensures
        match field_of(pairs, name) {
            Some(field) => {
                &&& value_of(pairs, name) is Some
                &&& field.len() > 0
                &&& !is_white_space(field.first())
                &&& !is_white_space(field.last())
                &&& exists|before: Seq<char>, after: Seq<char>|
                    {
                        &&& #[trigger] is_blank(before)
                        &&& #[trigger] is_blank(after)
                        &&& value_of(pairs, name)->0 == before + field + after
                    }
            },
            None => value_of(pairs, name) is None || is_blank(value_of(pairs, name)->0),
        },
{
    if let Some(value) = value_of(pairs, name) {
        let middle = trimmed_start(value);
        let field = trimmed(value);
        start_is_blank(value);
        end_is_blank(middle);
        let n = value.len() - middle.len();
        let before = value.take(n);
        let after = middle.skip(field.len() as int);
        assert(value =~= before + field + after) by {
            assert(value =~= value.take(n) + value.skip(n));
            assert(middle =~= middle.take(field.len() as int) + after);
        }
        assert(is_blank(before));
        assert(is_blank(after));
        if field.len() == 0 {
            assert forall|i: int| 0 <= i < value.len() implies is_white_space(
                #[trigger] value[i],
            ) by {
                if i < n {
                    assert(before[i] == value[i]);
                } else {
                    assert(after[i - n] == value[i]);
                }
            }
        } else {
            assert(field.first() == middle[0]);
        }
    }
}

/// The texts of pairs are those of each of them, in order; an optional string
/// slice has a text just if it is there.
pub proof fn texts_are_those_of_the_pairs(pairs: Seq<(String, String)>, i: int, s: &str)
    ensures
        pair_texts(pairs).len() == pairs.len(),
        0 <= i < pairs.len() ==> pair_texts(pairs)[i] == (pairs[i].0@, pairs[i].1@),
        optional_str(Some(s)) == Some(s@),
        optional_str(None) is None,
{
}

} // verus!
