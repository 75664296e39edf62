//! Pure rendering computations for the dashboard: the visible slice of the
//! filtered log list, the status glyphs of the project list, and the
//! content-based colouring of one log line into styled spans.  What reaches
//! the screen is exactly what these functions hand back; the terminal
//! drawing itself stays outside.

use vstd::prelude::*;

use crate::logs::LogLevel;
use crate::status::ProcessStatus;
use crate::text::{
    chars_of, contains_chars, contains_seq, copy_range, find_char_in, is_digit, lower,
    string_from_chars, to_lower, u64_to_string, spec_decimal,
};

verus! {

/// The window `[start, end)` of a list of `total` entries shown in a panel
/// `height` rows tall, holding the scroll position: the whole list when it
/// fits, else a full page that contains the (clamped) scroll position.
pub open spec fn spec_visible_window(scroll: int, total: int, height: int) -> (int, int) {
    let pos = if total == 0 {
        0
    } else if scroll < total - 1 {
        scroll
    } else {
        total - 1
    };
    if total <= height {
        (0, total)
    } else if pos + height > total {
        (total - height, total)
    } else {
        (pos, pos + height)
    }
}

/// Compute the visible window of the log panel.  The window always lies
/// inside the list; when the list overflows the panel the window is exactly
/// one page and contains the clamped scroll position.
pub fn visible_window(scroll: usize, total: usize, height: usize) -> (r: (usize, usize))
    ensures
        (r.0 as int, r.1 as int) == spec_visible_window(scroll as int, total as int, height as int),
        r.0 <= r.1 <= total,
        total <= height ==> r.0 == 0 && r.1 == total,
        total > height ==> r.1 - r.0 == height,
        height > 0 && total > 0 ==> r.0 <= (if scroll < total - 1 {
            scroll as int
        } else {
            total - 1
        }) < r.1,
{
    let pos = if total == 0 {
        0
    } else if scroll < total - 1 {
        scroll
    } else {
        total - 1
    };
    if total <= height {
        (0, total)
    } else if pos >= total - height {
        (total - height, total)
    } else {
        (pos, pos + height)
    }
}

/// The glyph the project list shows for a lifecycle state.
pub fn status_icon(status: &ProcessStatus) -> (r: &'static str)
    ensures
        *status == ProcessStatus::Starting ==> r@ == "🔄 "@,
        *status == ProcessStatus::Running ==> r@ == "▶  "@,
        *status == ProcessStatus::Success ==> r@ == "✅ "@,
        *status == ProcessStatus::Failed ==> r@ == "❌ "@,
        *status == ProcessStatus::Crashed ==> r@ == "💥 "@,
{
    match status {
        ProcessStatus::Starting => "🔄 ",
        ProcessStatus::Running => "▶  ",
        ProcessStatus::Success => "✅ ",
        ProcessStatus::Failed => "❌ ",
        ProcessStatus::Crashed => "💥 ",
    }
}

/// The auto/manual scroll tag of the log panel title.
pub fn scroll_indicator(auto_scroll: bool) -> (r: &'static str)
    ensures
        auto_scroll ==> r@ == "⬇ auto"@,
        !auto_scroll ==> r@ == "⏸ manual"@,
{
    if auto_scroll {
        "⬇ auto"
    } else {
        "⏸ manual"
    }
}

/// The `first/total` position tag of the log panel title.
pub fn scroll_position(start: usize, total: usize) -> (r: String)
    requires
        total > 0 ==> start < total,
    ensures
        total > 0 ==> r@ == spec_decimal(start + 1) + "/"@ + spec_decimal(total as int),
        total == 0 ==> r@ == "0/0"@,
{
    if total > 0 {
        let mut out = u64_to_string((start as u64) + 1);
        out.append("/");
        let t = u64_to_string(total as u64);
        out.append(t.as_str());
        proof {
            assert(out@ =~= spec_decimal(start + 1) + "/"@ + spec_decimal(total as int));
        }
        out
    } else {
        String::from_str("0/0")
    }
}

/// The colours a rendered span can take.
#[derive(Debug, Clone, Copy, PartialEq, Eq, Structural)]
pub enum SpanColor {
    White,
    Red,
    DarkGray,
    Green,
    Yellow,
    Cyan,
    Magenta,
}

/// One styled fragment of a rendered log line.
#[derive(Debug)]
pub struct StyledSpan {
    pub text: String,
    pub color: SpanColor,
    pub bold: bool,
    pub underlined: bool,
}

/// The concatenated text of a span list.
pub open spec fn spans_text(s: Seq<StyledSpan>) -> Seq<char>
    decreases s.len(),
{
    if s.len() == 0 {
        Seq::empty()
    } else {
        spans_text(s.drop_last()) + s.last().text@
    }
}

/// The text of a single span is its own text.
pub proof fn lemma_spans_single(s: Seq<StyledSpan>)
    requires
        s.len() == 1,
    ensures
        spans_text(s) == s[0].text@,
{
    assert(s.drop_last() =~= Seq::<StyledSpan>::empty());
    assert(spans_text(s.drop_last()) + s[0].text@ =~= s[0].text@);
}

/// Appending a span appends its text.
pub proof fn lemma_spans_push(s: Seq<StyledSpan>, x: StyledSpan)
    ensures
        spans_text(s.push(x)) == spans_text(s) + x.text@,
{
    assert(s.push(x).drop_last() =~= s);
}

/// The base colour of a severity.
pub open spec fn spec_base_color(level: LogLevel) -> SpanColor {
    match level {
        LogLevel::Info => SpanColor::White,
        LogLevel::Error => SpanColor::Red,
        LogLevel::Debug => SpanColor::DarkGray,
    }
}

/// The (lowercased) line announces a success.
pub open spec fn success_pattern(l: Seq<char>) -> bool {
    contains_seq(l, "compiled successfully"@) || contains_seq(l, "✓"@) || contains_seq(l, "✅"@)
        || contains_seq(l, "ready"@) || contains_seq(l, "listening on"@) || contains_seq(
        l,
        "server started"@,
    ) || (contains_seq(l, "compiled"@) && !contains_seq(l, "error"@))
}

/// The (lowercased) line announces an error.
pub open spec fn error_pattern(l: Seq<char>) -> bool {
    contains_seq(l, "error"@) || contains_seq(l, "fail"@) || contains_seq(l, "panic"@)
        || contains_seq(l, "✗"@) || contains_seq(l, "❌"@) || contains_seq(l, "exception"@)
}

/// The (lowercased) line announces a warning.
pub open spec fn warn_pattern(l: Seq<char>) -> bool {
    contains_seq(l, "warn"@) || contains_seq(l, "⚠"@)
}

/// The line carries a URL.
pub open spec fn url_pattern(s: Seq<char>) -> bool {
    contains_seq(s, "http://"@) || contains_seq(s, "https://"@)
}

/// The line names a source file.
pub open spec fn path_pattern(s: Seq<char>) -> bool {
    contains_seq(s, ".rs"@) || contains_seq(s, ".ts"@) || contains_seq(s, ".js"@) || contains_seq(
        s,
        ".tsx"@,
    )
}

/// The line holds a decimal digit.
pub open spec fn digit_pattern(s: Seq<char>) -> bool {
    exists|i: int| 0 <= i < s.len() && is_digit(#[trigger] s[i])
}

/// The first position at or after `from` where `needle` occurs in `v`.
fn find_sub_from(v: &Vec<char>, from: usize, needle: &Vec<char>) -> (r: Option<usize>)
    requires
        from <= v@.len(),
        needle@.len() >= 1,
    ensures
        match r {
            Some(i) => from <= i && i + needle@.len() <= v@.len() && v@.subrange(
                i as int,
                i + needle@.len(),
            ) == needle@,
            None => true,
        },
{
    if needle.len() > v.len() {
        return None;
    }
    let bound = v.len() - needle.len();
    let mut i: usize = from;
    while i <= bound
        invariant
            1 <= needle@.len() <= v@.len(),
            v@.len() <= usize::MAX,
            bound == v@.len() - needle@.len(),
            from <= i,
        decreases bound + 1 - i,
    {
        let mut j: usize = 0;
        let mut ok = true;
        while j < needle.len()
            invariant
                i + needle@.len() <= v@.len(),
                v@.len() <= usize::MAX,
                j <= needle@.len(),
                ok ==> forall|k: int| 0 <= k < j ==> v@[i + k] == needle@[k],
            decreases needle@.len() - j,
        {
            if v[i + j] != needle[j] {
                ok = false;
                j = needle.len();
            } else {
                j = j + 1;
            }
        }
        if ok {
            proof {
                assert(v@.subrange(i as int, i + needle@.len()) =~= needle@);
            }
            return Some(i);
        }
        i = i + 1;
    }
    None
}

/// Colour one log line by its content, as styled spans whose concatenated
/// text is exactly the line: success lines green, error lines bold red,
/// warnings bold yellow, URLs underlined cyan inside base-coloured text,
/// source-file lines magenta, numeric tokens yellow inside base-coloured
/// text, and everything else in the severity's base colour.
#[verifier::rlimit(80)]
pub fn colorize_log_message(message: &str, level: &LogLevel) -> (r: Vec<StyledSpan>)
    ensures
        spans_text(r@) == message@,
        r@.len() >= 1,
        ({
            let l = lower(message@);
            let base = spec_base_color(*level);
            &&& (success_pattern(l) ==> r@.len() == 1 && r@[0].color == SpanColor::Green
                && !r@[0].bold && !r@[0].underlined)
            &&& (!success_pattern(l) && error_pattern(l) ==> r@.len() == 1 && r@[0].color
                == SpanColor::Red && r@[0].bold)
            &&& (!success_pattern(l) && !error_pattern(l) && warn_pattern(l) ==> r@.len() == 1
                && r@[0].color == SpanColor::Yellow && r@[0].bold)
            &&& (!success_pattern(l) && !error_pattern(l) && !warn_pattern(l) && url_pattern(
                message@,
            ) ==> forall|i: int|
                0 <= i < r@.len() ==> (#[trigger] r@[i]).color == base || (r@[i].color
                    == SpanColor::Cyan && r@[i].underlined))
            &&& (!success_pattern(l) && !error_pattern(l) && !warn_pattern(l) && !url_pattern(
                message@,
            ) && path_pattern(message@) ==> r@.len() == 1 && r@[0].color == SpanColor::Magenta)
            &&& (!success_pattern(l) && !error_pattern(l) && !warn_pattern(l) && !url_pattern(
                message@,
            ) && !path_pattern(message@) && digit_pattern(message@) ==> forall|i: int|
                0 <= i < r@.len() ==> (#[trigger] r@[i]).color == base || r@[i].color
                    == SpanColor::Yellow)
            &&& (!success_pattern(l) && !error_pattern(l) && !warn_pattern(l) && !url_pattern(
                message@,
            ) && !path_pattern(message@) && !digit_pattern(message@) ==> r@.len() == 1
                && r@[0].color == base)
        }),
{
    let base = match level {
        LogLevel::Info => SpanColor::White,
        LogLevel::Error => SpanColor::Red,
        LogLevel::Debug => SpanColor::DarkGray,
    };
    let v = chars_of(message);
    let l = to_lower(&v);

    let success = contains_chars(&l, &chars_of("compiled successfully")) || contains_chars(
        &l,
        &chars_of("✓"),
    ) || contains_chars(&l, &chars_of("✅")) || contains_chars(&l, &chars_of("ready"))
        || contains_chars(&l, &chars_of("listening on")) || contains_chars(
        &l,
        &chars_of("server started"),
    ) || (contains_chars(&l, &chars_of("compiled")) && !contains_chars(&l, &chars_of("error")));
    if success {
        let mut out: Vec<StyledSpan> = Vec::new();
        out.push(
            StyledSpan {
                text: string_from_chars(&v),
                color: SpanColor::Green,
                bold: false,
                underlined: false,
            },
        );
        proof {
            lemma_spans_single(out@);
            assert(spans_text(out@) =~= message@);
        }
        return out;
    }
    let erroring = contains_chars(&l, &chars_of("error")) || contains_chars(&l, &chars_of("fail"))
        || contains_chars(&l, &chars_of("panic")) || contains_chars(&l, &chars_of("✗"))
        || contains_chars(&l, &chars_of("❌")) || contains_chars(&l, &chars_of("exception"));
    if erroring {
        let mut out: Vec<StyledSpan> = Vec::new();
        out.push(
            StyledSpan {
                text: string_from_chars(&v),
                color: SpanColor::Red,
                bold: true,
                underlined: false,
            },
        );
        proof {
            lemma_spans_single(out@);
            assert(spans_text(out@) =~= message@);
        }
        return out;
    }
    let warning = contains_chars(&l, &chars_of("warn")) || contains_chars(&l, &chars_of("⚠"));
    if warning {
        let mut out: Vec<StyledSpan> = Vec::new();
        out.push(
            StyledSpan {
                text: string_from_chars(&v),
                color: SpanColor::Yellow,
                bold: true,
                underlined: false,
            },
        );
        proof {
            lemma_spans_single(out@);
            assert(spans_text(out@) =~= message@);
        }
        return out;
    }
    let has_url = contains_chars(&v, &chars_of("http://")) || contains_chars(
        &v,
        &chars_of("https://"),
    );
    if has_url {
        let needle = chars_of("http");
        proof {
            reveal_strlit("http");
        }
        let mut out: Vec<StyledSpan> = Vec::new();
        let mut last_end: usize = 0;
        let mut scanning = true;
        while scanning
            invariant
                last_end <= v@.len(),
                v@ == message@,
                needle@ == "http"@,
                needle@.len() == 4,
                spans_text(out@) == v@.subrange(0, last_end as int),
                forall|i: int|
                    0 <= i < out@.len() ==> (#[trigger] out@[i]).color == base || (out@[i].color
                        == SpanColor::Cyan && out@[i].underlined),
            decreases v@.len() - last_end, (if scanning {
                1int
            } else {
                0int
            }),
        {
            match find_sub_from(&v, last_end, &needle) {
                None => {
                    scanning = false;
                },
                Some(start) => {
                    proof {
                        assert(v@.subrange(start as int, start + 4)[0] == v@[start as int]);
                    }
                    if start > last_end {
                        let piece = copy_range(&v, last_end, start);
                        let ghost prev = out@;
                        out.push(
                            StyledSpan {
                                text: string_from_chars(&piece),
                                color: base,
                                bold: false,
                                underlined: false,
                            },
                        );
                        proof {
                            lemma_spans_push(prev, out@.last());
                            assert(out@ =~= prev.push(out@.last()));
                            assert(spans_text(out@) =~= v@.subrange(0, start as int));
                        }
                    }
                    let end = match find_char_in(&v, start, v.len(), ' ') {
                        Some(sp) => sp,
                        None => v.len(),
                    };
                    proof {
                        // the match starts with 'h', never a space, so the
                        // URL span is never empty and the scan advances
                        assert(end > start || end == start) by {}
                        if end == start {
                            assert(v@[start as int] == 'h') by {
                                reveal_strlit("http");
                            }
                        }
                    }
                    let urlend = if end > start {
                        end
                    } else {
                        v.len()
                    };
                    let piece = copy_range(&v, start, urlend);
                    let ghost prev = out@;
                    out.push(
                        StyledSpan {
                            text: string_from_chars(&piece),
                            color: SpanColor::Cyan,
                            bold: false,
                            underlined: true,
                        },
                    );
                    last_end = urlend;
                    proof {
                        lemma_spans_push(prev, out@.last());
                        assert(out@ =~= prev.push(out@.last()));
                        assert(spans_text(out@) =~= v@.subrange(0, last_end as int));
                    }
                },
            }
        }
        if last_end < v.len() {
            let n = v.len();
            let piece = copy_range(&v, last_end, n);
            let ghost prev = out@;
            out.push(
                StyledSpan {
                    text: string_from_chars(&piece),
                    color: base,
                    bold: false,
                    underlined: false,
                },
            );
            proof {
                lemma_spans_push(prev, out@.last());
                assert(out@ =~= prev.push(out@.last()));
                assert(spans_text(out@) =~= v@);
            }
        }
        if out.len() == 0 {
            out.push(
                StyledSpan {
                    text: string_from_chars(&v),
                    color: base,
                    bold: false,
                    underlined: false,
                },
            );
            proof {
                lemma_spans_single(out@);
                assert(spans_text(out@) =~= message@);
            }
        }
        proof {
            assert(v@.subrange(0, v@.len() as int) =~= v@);
            assert(spans_text(out@) =~= message@);
        }
        return out;
    }
    let has_path = contains_chars(&v, &chars_of(".rs")) || contains_chars(&v, &chars_of(".ts"))
        || contains_chars(&v, &chars_of(".js")) || contains_chars(&v, &chars_of(".tsx"));
    if has_path {
        let mut out: Vec<StyledSpan> = Vec::new();
        out.push(
            StyledSpan {
                text: string_from_chars(&v),
                color: SpanColor::Magenta,
                bold: false,
                underlined: false,
            },
        );
        proof {
            lemma_spans_single(out@);
            assert(spans_text(out@) =~= message@);
        }
        return out;
    }
    let mut any_digit = false;
    let mut di: usize = 0;
    while di < v.len()
        invariant
            di <= v@.len(),
            v@ == message@,
            any_digit ==> digit_pattern(v@),
            !any_digit ==> forall|k: int| 0 <= k < di ==> !is_digit(#[trigger] v@[k]),
        decreases v@.len() - di,
    {
        let u = v[di] as u32;
        if 48 <= u && u <= 57 {
            any_digit = true;
        }
        di = di + 1;
    }
    if any_digit {
        let mut out: Vec<StyledSpan> = Vec::new();
        let mut current: Vec<char> = Vec::new();
        let mut in_number = false;
        let mut i: usize = 0;
        while i < v.len()
            invariant
                i <= v@.len(),
                v@ == message@,
                spans_text(out@) + current@ == v@.subrange(0, i as int),
                forall|k: int|
                    0 <= k < out@.len() ==> (#[trigger] out@[k]).color == base || out@[k].color
                        == SpanColor::Yellow,
            decreases v@.len() - i,
        {
            let c = v[i];
            let u = c as u32;
            let is_d = 48 <= u && u <= 57;
            if is_d || (in_number && (c == '.' || c == ':')) {
                if !in_number {
                    if current.len() > 0 {
                        let ghost prev = out@;
                        out.push(
                            StyledSpan {
                                text: string_from_chars(&current),
                                color: base,
                                bold: false,
                                underlined: false,
                            },
                        );
                        current = Vec::new();
                        proof {
                            lemma_spans_push(prev, out@.last());
                            assert(out@ =~= prev.push(out@.last()));
                            assert(spans_text(out@) + current@ =~= v@.subrange(0, i as int));
                        }
                    }
                    in_number = true;
                }
                current.push(c);
            } else {
                if in_number {
                    let ghost prev = out@;
                    out.push(
                        StyledSpan {
                            text: string_from_chars(&current),
                            color: SpanColor::Yellow,
                            bold: false,
                            underlined: false,
                        },
                    );
                    current = Vec::new();
                    proof {
                        lemma_spans_push(prev, out@.last());
                        assert(out@ =~= prev.push(out@.last()));
                        assert(spans_text(out@) + current@ =~= v@.subrange(0, i as int));
                    }
                    in_number = false;
                }
                current.push(c);
            }
            i = i + 1;
            proof {
                assert(v@.subrange(0, i as int) =~= v@.subrange(0, i - 1).push(v@[i - 1]));
                assert(spans_text(out@) + current@ =~= v@.subrange(0, i as int));
            }
        }
        if current.len() > 0 {
            let color = if in_number {
                SpanColor::Yellow
            } else {
                base
            };
            let ghost prev = out@;
            out.push(
                StyledSpan {
                    text: string_from_chars(&current),
                    color,
                    bold: false,
                    underlined: false,
                },
            );
            proof {
                lemma_spans_push(prev, out@.last());
                assert(out@ =~= prev.push(out@.last()));
                assert(spans_text(out@) =~= v@.subrange(0, v@.len() as int));
            }
        }
        proof {
            assert(v@.subrange(0, v@.len() as int) =~= v@);
            if current@.len() == 0 {
                assert(spans_text(out@) + current@ =~= spans_text(out@));
            }
            assert(spans_text(out@) =~= message@);
        }
        if out.len() == 0 {
            out.push(
                StyledSpan {
                    text: string_from_chars(&v),
                    color: base,
                    bold: false,
                    underlined: false,
                },
            );
            proof {
                lemma_spans_single(out@);
                assert(spans_text(out@) =~= message@);
            }
        }
        return out;
    }
    let mut out: Vec<StyledSpan> = Vec::new();
    out.push(
        StyledSpan { text: string_from_chars(&v), color: base, bold: false, underlined: false },
    );
    proof {
        lemma_spans_single(out@);
        assert(spans_text(out@) =~= message@);
    }
    out
}

} // verus!
