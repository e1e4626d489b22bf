use vstd::prelude::*;
use vstd::string::*;
use crate::text::parse_usize;
use crate::text::parse_usize_spec;
use crate::text::split_words;
use crate::text::str_equal;
use crate::text::strings_view;
use crate::text::trim;
use crate::text::trim_of;
use crate::text::words_of;

verus! {

/// Terminal dimensions, in character cells.
#[derive(Debug, Clone, Copy, PartialEq, Eq, Structural)]
pub struct TerminalSize {
    /// Width in columns.
    pub width: usize,
    /// Height in rows.
    pub height: usize,
}

/// A run of space characters.
pub open spec fn spaces(n: nat) -> Seq<char>
    decreases n,
{
    if n == 0 {
        Seq::<char>::empty()
    } else {
        spaces((n - 1) as nat).push(' ')
    }
}

/// Centered text: when the text is narrower than the width, half the
/// leftover columns (rounded down) are put before it; text at least as wide
/// as the width stays unchanged. A width of zero stands for the fixed
/// fallback width of 80 columns.
pub open spec fn centered(text: Seq<char>, width: nat) -> Seq<char> {
    let w: nat = if width > 0 {
        width
    } else {
        80
    };
    if text.len() >= w {
        text
    } else {
        spaces((((w - text.len()) as nat) / 2) as nat) + text
    }
}

/// Centers text in a line of the given width, as [`centered`] says. The
/// caller passes the detected terminal width; zero asks for the fixed
/// fallback width.
pub fn center_text(text: &str, width: usize) -> (r: String)
    ensures
        r@ == centered(text@, width as nat),
{
    let w: usize = if width > 0 {
        width
    } else {
        80
    };
    let n: usize = text.unicode_len();
    if n >= w {
        return String::from_str(text);
    }
    let pad = (w - n) / 2;
    let mut out = String::new();
    let mut i: usize = 0;
    proof {
        reveal_strlit(" ");
    }
    while i < pad
        invariant
            i <= pad,
            out@ == spaces(i as nat),
        decreases pad - i,
    {
        out.append(" ");
        proof {
            reveal_strlit(" ");
            assert(out@ =~= spaces(i as nat + 1));
        }
        i = i + 1;
    }
    out.append(text);
    out
}

/// One pass of greedy wrapping: `cur` is the line being filled, `acc` the
/// finished lines. A word joins the current line when it fits after it with
/// a separating space; otherwise it opens a new line, and a word opening a
/// line that is still longer than the width is cut at the width, the rest
/// carrying over as the new current line.
pub open spec fn wrap_step(
    words: Seq<Seq<char>>,
    cur: Seq<char>,
    acc: Seq<Seq<char>>,
    width: nat,
) -> Seq<Seq<char>>
    decreases words.len(),
{
    if words.len() == 0 {
        if cur.len() == 0 {
            acc
        } else {
            acc.push(cur)
        }
    } else {
        let w = words.first();
        if cur.len() + w.len() + 1 <= width {
            let cur2 = if cur.len() == 0 {
                w
            } else {
                cur.push(' ') + w
            };
            wrap_step(words.drop_first(), cur2, acc, width)
        } else if cur.len() > 0 {
            wrap_step(words.drop_first(), w, acc.push(cur), width)
        } else if w.len() > width {
            wrap_step(
                words.drop_first(),
                w.skip(width as int),
                acc.push(w.take(width as int)),
                width,
            )
        } else {
            wrap_step(words.drop_first(), Seq::<char>::empty(), acc.push(w), width)
        }
    }
}

/// The lines of a text wrapped to a width: its white-space-separated words,
/// folded greedily as [`wrap_step`] says.
pub open spec fn wrapped(text: Seq<char>, width: nat) -> Seq<Seq<char>> {
    wrap_step(words_of(text), Seq::<char>::empty(), Seq::<Seq<char>>::empty(), width)
}

/// Wraps a text into lines of at most the given width, as [`wrapped`] says.
pub fn wrap_text(text: &str, width: usize) -> (lines: Vec<String>)
    ensures
        strings_view(lines@) == wrapped(text@, width as nat),
{
    let words: Vec<String> = split_words(text);
    let ghost wordsv = strings_view(words@);
    let mut lines: Vec<String> = Vec::new();
    let mut cur = String::new();
    let mut cur_len: usize = 0;
    let mut i: usize = 0;
    proof {
        assert(wordsv.skip(0) =~= wordsv);
        assert(strings_view(lines@) =~= Seq::<Seq<char>>::empty());
    }
    while i < words.len()
        invariant
            i <= words@.len(),
            wordsv == strings_view(words@),
            cur_len == cur@.len(),
            wrap_step(wordsv.skip(i as int), cur@, strings_view(lines@), width as nat)
                == wrapped(text@, width as nat),
        decreases words@.len() - i,
    {
        let w = &words[i];
        let wlen = w.as_str().unicode_len();
        proof {
            assert(wordsv.skip(i as int).first() == wordsv[i as int]);
            assert(wordsv.skip(i as int).drop_first() =~= wordsv.skip(i as int + 1));
            assert(wordsv[i as int] == w@);
        }
        let ghost old_cur = cur@;
        let ghost old_lines = strings_view(lines@);
        if cur_len < width && wlen <= width - cur_len - 1 {
            if cur_len == 0 {
                cur = w.clone();
                cur_len = wlen;
            } else {
                cur.append(" ");
                cur.append(w.as_str());
                cur_len = cur_len + 1 + wlen;
                proof {
                    reveal_strlit(" ");
                    assert(cur@ =~= old_cur.push(' ') + w@);
                }
            }
        } else if cur_len > 0 {
            lines.push(cur);
            cur = w.clone();
            cur_len = wlen;
            proof {
                assert(strings_view(lines@) =~= old_lines.push(old_cur));
            }
        } else if wlen > width {
            let head = String::from_str(w.as_str().substring_char(0, width));
            let tail = String::from_str(w.as_str().substring_char(width, wlen));
            proof {
                assert(head@ =~= w@.take(width as int));
                assert(tail@ =~= w@.skip(width as int));
            }
            lines.push(head);
            cur = tail;
            cur_len = wlen - width;
            proof {
                assert(strings_view(lines@) =~= old_lines.push(w@.take(width as int)));
            }
        } else {
            lines.push(w.clone());
            cur = String::new();
            cur_len = 0;
            proof {
                assert(strings_view(lines@) =~= old_lines.push(w@));
            }
        }
        i = i + 1;
    }
    proof {
        assert(wordsv.skip(words@.len() as int) =~= Seq::<Seq<char>>::empty());
    }
    let ghost final_lines = strings_view(lines@);
    if cur_len > 0 {
        let ghost last = cur@;
        lines.push(cur);
        proof {
            assert(strings_view(lines@) =~= final_lines.push(last));
        }
    }
    lines
}

/// The dimensions that the size probe's output yields when it has the
/// expected shape: exactly two white-space-separated decimal numbers, rows
/// first, then columns.
pub open spec fn stty_size_of(out: Seq<char>) -> Option<TerminalSize> {
    let ws = words_of(out);
    if ws.len() == 2 {
        match (parse_usize_spec(ws[0]), parse_usize_spec(ws[1])) {
            (Some(h), Some(w)) => Some(
                TerminalSize { width: w as usize, height: h as usize },
            ),
            _ => None,
        }
    } else {
        None
    }
}

/// The dimensions that the two single-number probes yield: both outputs must
/// be present and, once trimmed, parse as decimal numbers.
pub open spec fn tput_size_of(cols: Option<Seq<char>>, lines: Option<Seq<char>>) -> Option<
    TerminalSize,
> {
    match (cols, lines) {
        (Some(c), Some(l)) => {
            match (parse_usize_spec(trim_of(c)), parse_usize_spec(trim_of(l))) {
                (Some(w), Some(h)) => Some(
                    TerminalSize { width: w as usize, height: h as usize },
                ),
                _ => None,
            }
        },
        _ => None,
    }
}

/// How the probe outputs combine: when the combined size probe ran and its
/// output has the expected two-number shape, it alone decides; otherwise the
/// two single-number probes must both succeed. A probe that did not run or
/// failed is handed in as `None`.
pub open spec fn size_from_probes_spec(
    stty: Option<Seq<char>>,
    cols: Option<Seq<char>>,
    lines: Option<Seq<char>>,
) -> Option<TerminalSize> {
    match stty {
        Some(out) => {
            if words_of(out).len() == 2 {
                stty_size_of(out)
            } else {
                tput_size_of(cols, lines)
            }
        },
        None => tput_size_of(cols, lines),
    }
}

/// Whether a TERM environment value announces color support: it must name
/// something, and not the dumb terminal.
pub open spec fn term_announces_color(term: Seq<char>) -> bool {
    term.len() > 0 && term != "dumb"@
}

/// Whether a color-count probe output announces color support: trimmed, it
/// must parse as a positive count within the 32-bit signed range its
/// consumers read it into.
pub open spec fn probe_announces_color(out: Option<Seq<char>>) -> bool {
    match out {
        Some(c) => match parse_usize_spec(trim_of(c)) {
            Some(v) => 0 < v <= 0x7FFF_FFFF,
            None => false,
        },
        None => false,
    }
}

/// Decides color support: the TERM environment value, when set, is
/// authoritative; otherwise the color-count probe decides. Anything
/// unreadable counts as no support.
pub fn color_support(term_var: Option<String>, tput_colors: Option<String>) -> (r: bool)
    ensures
        term_var matches Some(t) ==> r == term_announces_color(t@),
        term_var is None ==> r == probe_announces_color(
            match tput_colors {
                Some(c) => Some(c@),
                None => None,
            },
        ),
{
    match term_var {
        Some(t) => !t.as_str().is_empty() && !str_equal(t.as_str(), "dumb"),
        None => match tput_colors {
            Some(c) => match parse_usize(trim(c.as_str())) {
                Some(v) => 0 < v && v <= 0x7FFF_FFFF,
                None => false,
            },
            None => false,
        },
    }
}

fn tput_size(cols: Option<String>, lines: Option<String>) -> (r: Option<TerminalSize>)
    ensures
        r == tput_size_of(
            match cols {
                Some(c) => Some(c@),
                None => None,
            },
            match lines {
                Some(l) => Some(l@),
                None => None,
            },
        ),
{
    let c = match cols {
        Some(c) => c,
        None => {
            return None;
        },
    };
    let l = match lines {
        Some(l) => l,
        None => {
            return None;
        },
    };
    let w = match parse_usize(trim(c.as_str())) {
        Some(w) => w,
        None => {
            return None;
        },
    };
    let h = match parse_usize(trim(l.as_str())) {
        Some(h) => h,
        None => {
            return None;
        },
    };
    Some(TerminalSize { width: w, height: h })
}

/// Derives the terminal size from the probe outputs, as
/// [`size_from_probes_spec`] says. The caller runs the probes and hands in
/// each probe's standard output, or `None` for one that failed.
pub fn terminal_size_from_probes(
    stty_output: Option<String>,
    tput_cols: Option<String>,
    tput_lines: Option<String>,
) -> (r: Option<TerminalSize>)
    ensures
        r == size_from_probes_spec(
            match stty_output {
                Some(s) => Some(s@),
                None => None,
            },
            match tput_cols {
                Some(s) => Some(s@),
                None => None,
            },
            match tput_lines {
                Some(s) => Some(s@),
                None => None,
            },
        ),
{
    match stty_output {
        Some(out) => {
            let ws = split_words(out.as_str());
            if ws.len() == 2 {
                proof {
                    assert(strings_view(ws@)[0] == words_of(out@)[0]);
                    assert(strings_view(ws@)[1] == words_of(out@)[1]);
                }
                let h = match parse_usize(ws[0].as_str()) {
                    Some(h) => h,
                    None => {
                        return None;
                    },
                };
                let w = match parse_usize(ws[1].as_str()) {
                    Some(w) => w,
                    None => {
                        return None;
                    },
                };
                Some(TerminalSize { width: w, height: h })
            } else {
                tput_size(tput_cols, tput_lines)
            }
        },
        None => tput_size(tput_cols, tput_lines),
    }
}

} // verus!
