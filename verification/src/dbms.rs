use vstd::prelude::*;
use vstd::std_specs::iter::IteratorSpec;

verus! {

broadcast use vstd::string::group_string_axioms;

/// Why an input could not be unescaped: a backslash followed by a character that
/// starts no supported escape.
#[derive(Clone, Copy, Debug, PartialEq, Eq, Structural)]
pub enum UnescapeError {
    UnsupportedEscapeChar(char),
}

/// The character that a backslash followed by `c` stands for, where that is an escape.
pub open spec fn escaped_char(c: char) -> Option<char> {
    if c == '0' {
        Some('\0')
    } else if c == 'n' {
        Some('\n')
    } else if c == 'r' {
        Some('\r')
    } else if c == 't' {
        Some('\t')
    } else if c == '\\' {
        Some('\\')
    } else {
        None
    }
}

/// `acc` in front of what `r` produced, or the error `r` failed with.
pub open spec fn prepend(acc: Seq<char>, r: Result<Seq<char>, UnescapeError>) -> Result<
    Seq<char>,
    UnescapeError,
> {
    match r {
        Ok(rest) => Ok(acc + rest),
        Err(e) => Err(e),
    }
}

/// `s` with every escape replaced by the character it stands for; a backslash at the
/// very end is dropped, and one before an unsupported character is an error.
pub open spec fn unescape_spec(s: Seq<char>) -> Result<Seq<char>, UnescapeError>
    decreases s.len(),
{
    if s.len() == 0 {
        Ok(Seq::empty())
    } else if s[0] == '\\' {
        if s.len() == 1 {
            Ok(Seq::empty())
        } else {
            match escaped_char(s[1]) {
                Some(c) => prepend(seq![c], unescape_spec(s.skip(2))),
                None => Err(UnescapeError::UnsupportedEscapeChar(s[1])),
            }
        }
    } else {
        prepend(seq![s[0]], unescape_spec(s.skip(1)))
    }
}

/// Appends `c` to `s`.
///
/// Trusted: calls `String::push`, which appends the one character.
#[verifier::external_body]
fn push_char(s: &mut String, c: char)
    ensures
        final(s)@ == old(s)@.push(c),
{
    s.push(c)
}

/// The input with its escapes (`\0`, `\n`, `\r`, `\t`, `\\`) replaced.
pub fn unescape_input(input: &str) -> (res: Result<String, UnescapeError>)
    ensures
        match unescape_spec(input@) {
            Ok(s) => res matches Ok(r) && r@ == s,
            Err(e) => res == Err::<String, UnescapeError>(e),
        },
{
    let mut chars = input.chars();
    let mut result = String::new();
    assert(input@.skip(0) =~= input@);
    loop
        invariant
            chars.obeys_prophetic_iter_laws(),
            chars.decrease() is Some,
            input@.len() >= chars.remaining().len(),
            chars.remaining() == input@.skip(input@.len() - chars.remaining().len()),
            unescape_spec(input@) == prepend(result@, unescape_spec(chars.remaining())),
        decreases chars.decrease()->0,
    {
        let ghost rest = chars.remaining();
        match chars.next() {
            None => {
                assert(rest.len() == 0);
                assert(result@ + Seq::<char>::empty() =~= result@);
                return Ok(result);
            },
            Some(c) => {
                assert(rest[0] == c);
                if c == '\\' {
                    let ghost rest1 = chars.remaining();
                    match chars.next() {
                        None => {
                            assert(rest.len() == 1);
                            assert(result@ + Seq::<char>::empty() =~= result@);
                            return Ok(result);
                        },
                        Some(next_char) => {
                            assert(rest[1] == next_char) by {
                                assert(rest1 == rest.drop_first());
                            }
                            assert(chars.remaining() =~= rest.skip(2));
                            let unescaped = if next_char == '0' {
                                '\0'
                            } else if next_char == 'n' {
                                '\n'
                            } else if next_char == 'r' {
                                '\r'
                            } else if next_char == 't' {
                                '\t'
                            } else if next_char == '\\' {
                                '\\'
                            } else {
                                return Err(UnescapeError::UnsupportedEscapeChar(next_char));
                            };
                            let ghost before = result@;
                            push_char(&mut result, unescaped);
                            assert(before.push(unescaped) =~= before + seq![unescaped]);
                            assert(unescape_spec(input@) == prepend(
                                result@,
                                unescape_spec(chars.remaining()),
                            )) by {
                                match unescape_spec(chars.remaining()) {
                                    Ok(r) => {
                                        assert(before + (seq![unescaped] + r) =~= result@ + r);
                                    },
                                    Err(e) => {},
                                }
                            }
                        },
                    }
                } else {
                    assert(chars.remaining() =~= rest.skip(1));
                    let ghost before = result@;
                    push_char(&mut result, c);
                    assert(unescape_spec(input@) == prepend(
                        result@,
                        unescape_spec(chars.remaining()),
                    )) by {
                        match unescape_spec(chars.remaining()) {
                            Ok(r) => {
                                assert(before + (seq![c] + r) =~= result@ + r);
                            },
                            Err(e) => {},
                        }
                    }
                }
            },
        }
    }
}

/// The characters that stand for `c` once escaped: a backslash before `0`, `n`, `r`,
/// `t` or `\\` for the null character, a line feed, a carriage return, a tab or a
/// backslash, and `c` itself for any other character.
pub open spec fn escape_char(c: char) -> Seq<char> {
    if c == '\0' {
        seq!['\\', '0']
    } else if c == '\n' {
        seq!['\\', 'n']
    } else if c == '\r' {
        seq!['\\', 'r']
    } else if c == '\t' {
        seq!['\\', 't']
    } else if c == '\\' {
        seq!['\\', '\\']
    } else {
        seq![c]
    }
}

/// `s` with each of its characters escaped.
pub open spec fn escape_spec(s: Seq<char>) -> Seq<char>
    decreases s.len(),
{
    if s.len() == 0 {
        Seq::empty()
    } else {
        escape_char(s[0]) + escape_spec(s.skip(1))
    }
}

/// Unescaping an escaped text gives the text back: escaping the null character, line
/// feeds, carriage returns, tabs and backslashes, and keeping every other character,
/// is undone by [`unescape_input`].
pub proof fn lemma_unescape_escaped(s: Seq<char>)
    ensures
        unescape_spec(escape_spec(s)) == Ok::<Seq<char>, UnescapeError>(s),
    decreases s.len(),
{
    if s.len() > 0 {
        let c = s[0];
        let rest = s.skip(1);
        let e = escape_char(c);
        let t = escape_spec(s);
        lemma_unescape_escaped(rest);
        assert(t == e + escape_spec(rest));
        if e.len() == 2 {
            assert(t[0] == '\\');
            assert(t[1] == e[1]);
            assert(escaped_char(t[1]) == Some(c));
            assert(t.skip(2) =~= escape_spec(rest));
            assert(unescape_spec(t) == prepend(seq![c], unescape_spec(escape_spec(rest))));
        } else {
            assert(t[0] == c);
            assert(c != '\\');
            assert(t.skip(1) =~= escape_spec(rest));
            assert(unescape_spec(t) == prepend(seq![c], unescape_spec(escape_spec(rest))));
        }
        assert(seq![c] + rest =~= s);
        assert(unescape_spec(t) == Ok::<Seq<char>, UnescapeError>(seq![c] + rest));
    } else {
        assert(s =~= Seq::<char>::empty());
        assert(escape_spec(s) =~= Seq::<char>::empty());
    }
}

} // verus!
