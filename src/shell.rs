//! Splitting a command line into words, with shell quoting and escaping.
//!
//! Words are separated by spaces, tabs and newlines. Inside single quotes
//! every character stands for itself. Inside double quotes a backslash
//! escapes `"`, `\`, `$` and `` ` `` and removes a newline; before any other
//! character it stands for itself. Outside quotes a backslash escapes the
//! next character, and removes a newline. Quotes join the text around them
//! into one word, and `""` is an empty word. An unterminated quote or a
//! trailing backslash makes the line invalid.
use vstd::prelude::*;

verus! {

/// Lexical mode of the splitter.
#[derive(Debug, Clone, Copy, PartialEq, Eq, Structural)]
pub enum Mode {
    /// Outside quotes.
    Plain,
    /// Inside single quotes.
    Single,
    /// Inside double quotes.
    Double,
    /// After a backslash outside quotes.
    Escape,
    /// After a backslash inside double quotes.
    DoubleEscape,
}

/// State of the splitter after a prefix of the line.
pub struct SplitState {
    pub mode: Mode,
    /// The word being read.
    pub word: Seq<char>,
    /// Whether a word is being read (it may still be empty: `""`).
    pub in_word: bool,
    /// The words read so far.
    pub words: Seq<Seq<char>>,
}

/// Characters that separate words.
pub open spec fn is_separator(c: char) -> bool {
    c == ' ' || c == '\t' || c == '\n'
}

/// The state before any character.
pub open spec fn split_init() -> SplitState {
    SplitState { mode: Mode::Plain, word: Seq::empty(), in_word: false, words: Seq::empty() }
}

/// The splitter's reaction to one character.
pub open spec fn split_step(st: SplitState, c: char) -> SplitState {
    match st.mode {
        Mode::Plain => if is_separator(c) {
            if st.in_word {
                SplitState { word: Seq::empty(), in_word: false, words: st.words.push(st.word), ..st }
            } else {
                st
            }
        } else if c == '\'' {
            SplitState { mode: Mode::Single, in_word: true, ..st }
        } else if c == '"' {
            SplitState { mode: Mode::Double, in_word: true, ..st }
        } else if c == '\\' {
            SplitState { mode: Mode::Escape, in_word: true, ..st }
        } else {
            SplitState { word: st.word.push(c), in_word: true, ..st }
        },
        Mode::Single => if c == '\'' {
            SplitState { mode: Mode::Plain, ..st }
        } else {
            SplitState { word: st.word.push(c), ..st }
        },
        Mode::Double => if c == '"' {
            SplitState { mode: Mode::Plain, ..st }
        } else if c == '\\' {
            SplitState { mode: Mode::DoubleEscape, ..st }
        } else {
            SplitState { word: st.word.push(c), ..st }
        },
        Mode::Escape => if c == '\n' {
            SplitState { mode: Mode::Plain, ..st }
        } else {
            SplitState { mode: Mode::Plain, word: st.word.push(c), ..st }
        },
        Mode::DoubleEscape => if c == '"' || c == '\\' || c == '$' || c == '`' {
            SplitState { mode: Mode::Double, word: st.word.push(c), ..st }
        } else if c == '\n' {
            SplitState { mode: Mode::Double, ..st }
        } else {
            SplitState { mode: Mode::Double, word: st.word.push('\\').push(c), ..st }
        },
    }
}

/// The splitter's state after the characters of `s`.
pub open spec fn split_run(s: Seq<char>) -> SplitState
    decreases s.len(),
{
    if s.len() == 0 {
        split_init()
    } else {
        split_step(split_run(s.drop_last()), s.last())
    }
}

/// The words of a command line, or `None` when it is invalid.
pub open spec fn split_words(s: Seq<char>) -> Option<Seq<Seq<char>>> {
    let st = split_run(s);
    if st.mode != Mode::Plain {
        None
    } else if st.in_word {
        Some(st.words.push(st.word))
    } else {
        Some(st.words)
    }
}

/// The views of a vector of strings.
pub open spec fn views(v: Seq<String>) -> Seq<Seq<char>> {
    v.map_values(|w: String| w@)
}

/// Splits a command line into words.
pub fn split_command(s: &str) -> (r: Option<Vec<String>>)
    ensures
        r matches Some(v) ==> split_words(s@) == Some(views(v@)),
        r is None ==> split_words(s@) is None,
{
    let n = s.unicode_len();
    let mut mode = Mode::Plain;
    let mut word = String::new();
    let mut in_word = false;
    let mut words: Vec<String> = Vec::new();
    let mut i: usize = 0;
    while i < n
        invariant
            n == s@.len(),
            i <= n,
            ({
                let st = split_run(s@.take(i as int));
                &&& st.mode == mode
                &&& st.word == word@
                &&& st.in_word == in_word
                &&& st.words == views(words@)
            }),
        decreases n - i,
    {
        let c = s.get_char(i);
        let one = s.substring_char(i, i + 1);
        proof {
            assert(s@.take(i + 1).drop_last() =~= s@.take(i as int));
            assert(s@.take(i + 1).last() == c);
            assert(one@ =~= seq![c]);
        }
        match mode {
            Mode::Plain => {
                if c == ' ' || c == '\t' || c == '\n' {
                    if in_word {
                        let w = word;
                        word = String::new();
                        proof {
                            assert(views(words@.push(w)) =~= views(words@).push(w@));
                        }
                        words.push(w);
                        in_word = false;
                    }
                } else if c == '\'' {
                    mode = Mode::Single;
                    in_word = true;
                } else if c == '"' {
                    mode = Mode::Double;
                    in_word = true;
                } else if c == '\\' {
                    mode = Mode::Escape;
                    in_word = true;
                } else {
                    word.append(one);
                    in_word = true;
                }
            },
            Mode::Single => {
                if c == '\'' {
                    mode = Mode::Plain;
                } else {
                    word.append(one);
                }
            },
            Mode::Double => {
                if c == '"' {
                    mode = Mode::Plain;
                } else if c == '\\' {
                    mode = Mode::DoubleEscape;
                } else {
                    word.append(one);
                }
            },
            Mode::Escape => {
                if c != '\n' {
                    word.append(one);
                }
                mode = Mode::Plain;
            },
            Mode::DoubleEscape => {
                if c == '"' || c == '\\' || c == '$' || c == '`' {
                    word.append(one);
                } else if c != '\n' {
                    proof {
                        reveal_strlit("\\");
                    }
                    word.append("\\");
                    word.append(one);
                }
                mode = Mode::Double;
            },
        }
        i = i + 1;
    }
    proof {
        assert(s@.take(n as int) =~= s@);
    }
    if mode != Mode::Plain {
        None
    } else {
        if in_word {
            proof {
                assert(views(words@.push(word)) =~= views(words@).push(word@));
            }
            words.push(word);
        }
        Some(words)
    }
}

} // verus!
