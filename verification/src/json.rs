//! A structured JSON value model and a verified renderer to JSON text.
//!
//! Request bodies are built as [`Json`] values so that the contracts can
//! speak about exactly which keys are present: an absent optional field of a
//! request never appears in the serialized body at all, not even as `null`.

use vstd::prelude::*;

verus! {

use vstd::string::StrSliceExecFns;
use vstd::string::StringExecFns;
use crate::text::int_text;
use crate::text::i64_text;

/// The mathematical shape of a JSON value.
#[verifier::ext_equal]
pub enum JsonV {
    Null,
    Bool(bool),
    Int(int),
    /// A number given by its literal text, emitted verbatim.
    Num(Seq<char>),
    Str(Seq<char>),
    Arr(Seq<JsonV>),
    Obj(Seq<(Seq<char>, JsonV)>),
}

/// A JSON value. Object fields keep their insertion order.
#[derive(Debug, PartialEq, Eq)]
pub enum Json {
    Null,
    Bool(bool),
    Int(i64),
    /// A number given by its literal text (used for non-integer numbers,
    /// which the verified core does not compute with). It is emitted
    /// verbatim, so it must be a valid JSON number to yield valid JSON.
    Num(String),
    Str(String),
    Arr(Vec<Json>),
    Obj(Vec<(String, Json)>),
}

/// The mathematical value of a sequence of JSON values.
pub open spec fn jview_seq(s: Seq<Json>) -> Seq<JsonV>
    decreases s,
{
    if s.len() == 0 {
        Seq::empty()
    } else {
        jview_seq(s.drop_last()).push(jview(s.last()))
    }
}

/// The mathematical value of a sequence of JSON object fields.
pub open spec fn jview_fields(s: Seq<(String, Json)>) -> Seq<(Seq<char>, JsonV)>
    decreases s,
{
    if s.len() == 0 {
        Seq::empty()
    } else {
        jview_fields(s.drop_last()).push((s.last().0@, jview(s.last().1)))
    }
}

/// The mathematical value of a JSON value.
pub open spec fn jview(j: Json) -> JsonV
    decreases j,
{
    match j {
        Json::Null => JsonV::Null,
        Json::Bool(b) => JsonV::Bool(b),
        Json::Int(i) => JsonV::Int(i as int),
        Json::Num(s) => JsonV::Num(s@),
        Json::Str(s) => JsonV::Str(s@),
        Json::Arr(items) => JsonV::Arr(jview_seq(items@)),
        Json::Obj(fields) => JsonV::Obj(jview_fields(fields@)),
    }
}

impl View for Json {
    type V = JsonV;

    open spec fn view(&self) -> JsonV {
        jview(*self)
    }
}

pub proof fn lemma_jview_seq(s: Seq<Json>)
    ensures
        jview_seq(s).len() == s.len(),
        forall|i: int| 0 <= i < s.len() ==> jview_seq(s)[i] == jview(s[i]),
    decreases s.len(),
{
    if s.len() > 0 {
        lemma_jview_seq(s.drop_last());
    }
}

pub proof fn lemma_jview_fields(s: Seq<(String, Json)>)
    ensures
        jview_fields(s).len() == s.len(),
        forall|i: int|
            0 <= i < s.len() ==> jview_fields(s)[i] == (s[i].0@, jview(s[i].1)),
    decreases s.len(),
{
    if s.len() > 0 {
        lemma_jview_fields(s.drop_last());
    }
}

/// A lower-case hexadecimal digit character for a value in `0 ..= 15`.
pub open spec fn hex_digit(d: int) -> char {
    if d < 10 {
        crate::text::dec_digit(d)
    } else if d == 10 {
        'a'
    } else if d == 11 {
        'b'
    } else if d == 12 {
        'c'
    } else if d == 13 {
        'd'
    } else if d == 14 {
        'e'
    } else {
        'f'
    }
}

/// How one character appears inside a JSON string literal.
pub open spec fn escape_char(c: char) -> Seq<char> {
    if c == '"' {
        seq!['\\', '"']
    } else if c == '\\' {
        seq!['\\', '\\']
    } else if c == '\n' {
        seq!['\\', 'n']
    } else if c == '\r' {
        seq!['\\', 'r']
    } else if c == '\t' {
        seq!['\\', 't']
    } else if (c as u32) < 32 {
        seq!['\\', 'u', '0', '0'] + seq![
            hex_digit(((c as u32) / 16) as int),
            hex_digit(((c as u32) % 16) as int),
        ]
    } else {
        seq![c]
    }
}

/// A string's characters, escaped for a JSON string literal.
pub open spec fn escaped(s: Seq<char>) -> Seq<char>
    decreases s.len(),
{
    if s.len() == 0 {
        Seq::empty()
    } else {
        escaped(s.drop_last()) + escape_char(s.last())
    }
}

/// A JSON string literal: quoted and escaped.
pub open spec fn str_text(s: Seq<char>) -> Seq<char> {
    seq!['"'] + escaped(s) + seq!['"']
}

/// JSON text of a value.
pub open spec fn json_text(j: JsonV) -> Seq<char>
    decreases j,
{
    match j {
        JsonV::Null => seq!['n', 'u', 'l', 'l'],
        JsonV::Bool(b) => if b {
            seq!['t', 'r', 'u', 'e']
        } else {
            seq!['f', 'a', 'l', 's', 'e']
        },
        JsonV::Int(i) => int_text(i),
        JsonV::Num(s) => s,
        JsonV::Str(s) => str_text(s),
        JsonV::Arr(items) => seq!['['] + arr_text(items) + seq![']'],
        JsonV::Obj(fields) => seq!['{'] + obj_text(fields) + seq!['}'],
    }
}

/// JSON text of the comma-separated elements of an array.
pub open spec fn arr_text(items: Seq<JsonV>) -> Seq<char>
    decreases items,
{
    if items.len() == 0 {
        Seq::empty()
    } else if items.len() == 1 {
        json_text(items[0])
    } else {
        arr_text(items.drop_last()) + seq![','] + json_text(items.last())
    }
}

/// JSON text of one `"key":value` object member.
pub open spec fn field_text(f: (Seq<char>, JsonV)) -> Seq<char>
    decreases f,
{
    str_text(f.0) + seq![':'] + json_text(f.1)
}

/// JSON text of the comma-separated members of an object.
pub open spec fn obj_text(fields: Seq<(Seq<char>, JsonV)>) -> Seq<char>
    decreases fields,
{
    if fields.len() == 0 {
        Seq::empty()
    } else if fields.len() == 1 {
        field_text(fields[0])
    } else {
        obj_text(fields.drop_last()) + seq![','] + field_text(fields.last())
    }
}

impl Clone for Json {
    /// Clones the value; the copy has the same mathematical value.
    fn clone(&self) -> (r: Self)
        ensures
            r@ == self@,
        decreases *self,
    {
        match self {
            Json::Null => Json::Null,
            Json::Bool(b) => Json::Bool(*b),
            Json::Int(i) => Json::Int(*i),
            Json::Num(s) => Json::Num(s.clone()),
            Json::Str(s) => Json::Str(s.clone()),
            Json::Arr(items) => {
                let mut out: Vec<Json> = Vec::new();
                proof {
                    assert(jview_seq(out@) =~= jview_seq(items@).take(0));
                }
                let mut i: usize = 0;
                #[verifier::loop_isolation(false)]
                while i < items.len()
                    invariant
                        i <= items.len(),
                        jview_seq(out@) == jview_seq(items@).take(i as int),
                    decreases items.len() - i,
                {
                    proof {
                        assert(decreases_to!(*self => *items));
                        assert(decreases_to!(*items => items@[i as int]));
                        lemma_jview_seq(items@);
                    }
                    let ghost prev: Seq<Json> = out@;
                    out.push(items[i].clone());
                    proof {
                        assert(out@.drop_last() =~= prev);
                        lemma_jview_seq(out@);
                        assert(jview_seq(out@) =~= jview_seq(items@).take(i as int + 1));
                    }
                    i = i + 1;
                }
                proof {
                    lemma_jview_seq(items@);
                    assert(jview_seq(items@).take(items@.len() as int) =~= jview_seq(items@));
                }
                Json::Arr(out)
            },
            Json::Obj(fields) => {
                let mut out: Vec<(String, Json)> = Vec::new();
                proof {
                    assert(jview_fields(out@) =~= jview_fields(fields@).take(0));
                }
                let mut i: usize = 0;
                #[verifier::loop_isolation(false)]
                while i < fields.len()
                    invariant
                        i <= fields.len(),
                        jview_fields(out@) == jview_fields(fields@).take(i as int),
                    decreases fields.len() - i,
                {
                    proof {
                        assert(decreases_to!(*self => *fields));
                        assert(decreases_to!(*fields => fields@[i as int]));
                        assert(decreases_to!(fields@[i as int] => fields@[i as int].1));
                        lemma_jview_fields(fields@);
                    }
                    let ghost prev: Seq<(String, Json)> = out@;
                    out.push((fields[i].0.clone(), fields[i].1.clone()));
                    proof {
                        assert(out@.drop_last() =~= prev);
                        lemma_jview_fields(out@);
                        assert(jview_fields(out@) =~= jview_fields(fields@).take(i as int + 1));
                    }
                    i = i + 1;
                }
                proof {
                    lemma_jview_fields(fields@);
                    assert(jview_fields(fields@).take(fields@.len() as int) =~= jview_fields(
                        fields@,
                    ));
                }
                Json::Obj(out)
            },
        }
    }
}

/// The one-character string for a low hexadecimal digit.
fn hex_digit_str(d: u32) -> (r: &'static str)
    requires
        d < 16,
    ensures
        r@ == seq![hex_digit(d as int)],
{
    if d < 10 {
        crate::text::digit_str(d as u64)
    } else {
        proof {
            reveal_strlit("a");
            reveal_strlit("b");
            reveal_strlit("c");
            reveal_strlit("d");
            reveal_strlit("e");
            reveal_strlit("f");
        }
        match d {
            10 => "a",
            11 => "b",
            12 => "c",
            13 => "d",
            14 => "e",
            _ => "f",
        }
    }
}

/// Appends the escaped form of the characters of `s` to `out`.
fn append_escaped(out: &mut String, s: &str)
    ensures
        final (out)@ == old(out)@ + escaped(s@),
{
    let n: usize = s.unicode_len();
    let mut i: usize = 0;
    proof {
        assert(s@.take(0) =~= Seq::<char>::empty());
        assert(old(out)@ + Seq::<char>::empty() =~= old(out)@);
    }
    while i < n
        invariant
            i <= n,
            n == s@.len(),
            out@ == old(out)@ + escaped(s@.take(i as int)),
        decreases n - i,
    {
        let c: char = s.get_char(i);
        proof {
            assert(s@.take(i as int + 1).drop_last() =~= s@.take(i as int));
            assert(s@.take(i as int + 1).last() == s@[i as int]);
        }
        if c == '"' {
            proof {
                reveal_strlit("\\\"");
            }
            out.append("\\\"");
            proof {
                assert("\\\""@ =~= escape_char(c));
            }
        } else if c == '\\' {
            proof {
                reveal_strlit("\\\\");
            }
            out.append("\\\\");
            proof {
                assert("\\\\"@ =~= escape_char(c));
            }
        } else if c == '\n' {
            proof {
                reveal_strlit("\\n");
            }
            out.append("\\n");
            proof {
                assert("\\n"@ =~= escape_char(c));
            }
        } else if c == '\r' {
            proof {
                reveal_strlit("\\r");
            }
            out.append("\\r");
            proof {
                assert("\\r"@ =~= escape_char(c));
            }
        } else if c == '\t' {
            proof {
                reveal_strlit("\\t");
            }
            out.append("\\t");
            proof {
                assert("\\t"@ =~= escape_char(c));
            }
        } else if (c as u32) < 32 {
            proof {
                reveal_strlit("\\u00");
            }
            out.append("\\u00");
            let code: u32 = c as u32;
            out.append(hex_digit_str(code / 16));
            out.append(hex_digit_str(code % 16));
            proof {
                assert("\\u00"@ + seq![hex_digit((code / 16) as int)] + seq![
                    hex_digit((code % 16) as int),
                ] =~= escape_char(c));
            }
        } else {
            out.append(s.substring_char(i, i + 1));
            proof {
                assert(s@.subrange(i as int, i as int + 1) =~= seq![c]);
                assert(seq![c] =~= escape_char(c));
            }
        }
        proof {
            assert(out@ =~= old(out)@ + escaped(s@.take(i as int + 1)));
        }
        i = i + 1;
    }
    proof {
        assert(s@.take(n as int) =~= s@);
    }
}

impl Json {
    /// Renders this value as JSON text.
    ///
    /// Object fields appear in their stored order; absent fields were never
    /// stored, so they do not appear.
    pub fn to_text(&self) -> (r: String)
        ensures
            r@ == json_text(self@),
        decreases *self,
    {
        match self {
            Json::Null => {
                proof {
                    reveal_strlit("null");
                }
                let r: String = String::from_str("null");
                proof {
                    assert(r@ =~= json_text(self@));
                }
                r
            },
            Json::Bool(b) => {
                proof {
                    reveal_strlit("true");
                    reveal_strlit("false");
                }
                let r: String = if *b {
                    String::from_str("true")
                } else {
                    String::from_str("false")
                };
                proof {
                    assert(r@ =~= json_text(self@));
                }
                r
            },
            Json::Int(i) => i64_text(*i),
            Json::Num(s) => s.clone(),
            Json::Str(s) => {
                proof {
                    reveal_strlit("\"");
                }
                let mut out: String = String::from_str("\"");
                append_escaped(&mut out, s.as_str());
                out.append("\"");
                proof {
                    assert(out@ =~= json_text(self@));
                }
                out
            },
            Json::Arr(items) => {
                proof {
                    reveal_strlit("[");
                    reveal_strlit("]");
                    reveal_strlit(",");
                    lemma_jview_seq(items@);
                    assert(jview_seq(items@).take(0) =~= Seq::<JsonV>::empty());
                }
                let mut out: String = String::from_str("[");
                let ghost views: Seq<JsonV> = jview_seq(items@);
                proof {
                    assert(out@ =~= seq!['['] + arr_text(views.take(0)));
                }
                let mut i: usize = 0;
                #[verifier::loop_isolation(false)]
                while i < items.len()
                    invariant
                        i <= items.len(),
                        views == jview_seq(items@),
                        views.len() == items@.len(),
                        forall|k: int| 0 <= k < items@.len() ==> views[k] == jview(items@[k]),
                        out@ == seq!['['] + arr_text(views.take(i as int)),
                    decreases items.len() - i,
                {
                    if i > 0 {
                        out.append(",");
                    }
                    proof {
                        assert(decreases_to!(*self => *items));
                        assert(decreases_to!(*items => items@[i as int]));
                    }
                    let piece: String = items[i].to_text();
                    out.append(piece.as_str());
                    proof {
                        assert(views.take(i as int + 1).drop_last() =~= views.take(i as int));
                        assert(views.take(i as int + 1).last() == views[i as int]);
                        if i == 0 {
                            assert(views.take(1)[0] == views[0]);
                        }
                        assert(out@ =~= seq!['['] + arr_text(views.take(i as int + 1)));
                    }
                    i = i + 1;
                }
                out.append("]");
                proof {
                    assert(views.take(items@.len() as int) =~= views);
                    assert(out@ =~= json_text(self@));
                }
                out
            },
            Json::Obj(fields) => {
                proof {
                    reveal_strlit("{");
                    reveal_strlit("}");
                    reveal_strlit(",");
                    reveal_strlit(":");
                    reveal_strlit("\"");
                    lemma_jview_fields(fields@);
                    assert(jview_fields(fields@).take(0) =~= Seq::<(Seq<char>, JsonV)>::empty());
                }
                let mut out: String = String::from_str("{");
                let ghost views: Seq<(Seq<char>, JsonV)> = jview_fields(fields@);
                proof {
                    assert(out@ =~= seq!['{'] + obj_text(views.take(0)));
                }
                let mut i: usize = 0;
                #[verifier::loop_isolation(false)]
                while i < fields.len()
                    invariant
                        i <= fields.len(),
                        views == jview_fields(fields@),
                        views.len() == fields@.len(),
                        forall|k: int|
                            0 <= k < fields@.len() ==> views[k] == (
                                fields@[k].0@,
                                jview(fields@[k].1),
                            ),
                        out@ == seq!['{'] + obj_text(views.take(i as int)),
                    decreases fields.len() - i,
                {
                    if i > 0 {
                        out.append(",");
                    }
                    out.append("\"");
                    append_escaped(&mut out, fields[i].0.as_str());
                    out.append("\"");
                    out.append(":");
                    proof {
                        assert(decreases_to!(*self => *fields));
                        assert(decreases_to!(*fields => fields@[i as int]));
                        assert(decreases_to!(fields@[i as int] => fields@[i as int].1));
                    }
                    let piece: String = fields[i].1.to_text();
                    out.append(piece.as_str());
                    proof {
                        assert(views.take(i as int + 1).drop_last() =~= views.take(i as int));
                        assert(views.take(i as int + 1).last() == views[i as int]);
                        if i == 0 {
                            assert(views.take(1)[0] == views[0]);
                        }
                        assert(views[i as int].0 == fields@[i as int].0@);
                        assert(views[i as int].1 == jview(fields@[i as int].1));
                        assert(piece@ == json_text(views[i as int].1));
                        assert(field_text(views[i as int]) =~= seq!['"'] + escaped(
                            views[i as int].0,
                        ) + seq!['"'] + seq![':'] + json_text(views[i as int].1));
                        assert(out@ =~= seq!['{'] + obj_text(views.take(i as int + 1)));
                    }
                    i = i + 1;
                }
                out.append("}");
                proof {
                    assert(views.take(fields@.len() as int) =~= views);
                    assert(out@ =~= json_text(self@));
                }
                out
            },
        }
    }
}

} // verus!
