//! Preparing a caller's snippet and wrapping it for the remote engine.
//!
//! A snippet is either a single expression, whose value the caller wants back,
//! or a block of statements that governs its own outcome. [`prepare_script`]
//! guesses which by a few textual signs and puts a `return` before an
//! expression. [`build_injected_script`] then wraps the prepared snippet in the
//! text that is sent to the remote engine: a self-invoking block that runs the
//! snippet and reports its outcome, tagged with the execution's token, on the
//! notification channel.

use vstd::prelude::*;
use vstd::string::*;

verus! {

/// The characters that count as white space when a snippet is trimmed: the
/// code points with the Unicode property `White_Space`.
pub open spec fn is_whitespace(c: char) -> bool {
    let n = c as u32;
    ||| 0x09 <= n <= 0x0d
    ||| n == 0x20
    ||| n == 0x85
    ||| n == 0xa0
    ||| n == 0x1680
    ||| 0x2000 <= n <= 0x200a
    ||| n == 0x2028
    ||| n == 0x2029
    ||| n == 0x202f
    ||| n == 0x205f
    ||| n == 0x3000
}

/// `s` without its leading white space.
pub open spec fn trim_start(s: Seq<char>) -> Seq<char>
    decreases s.len(),
{
    if s.len() > 0 && is_whitespace(s.first()) {
        trim_start(s.drop_first())
    } else {
        s
    }
}

/// `s` without its trailing white space.
pub open spec fn trim_end(s: Seq<char>) -> Seq<char>
    decreases s.len(),
{
    if s.len() > 0 && is_whitespace(s.last()) {
        trim_end(s.drop_last())
    } else {
        s
    }
}

/// `s` without leading and trailing white space.
pub open spec fn trimmed(s: Seq<char>) -> Seq<char> {
    trim_end(trim_start(s))
}

/// The characters that can continue an identifier, and so cannot end a
/// keyword: the ASCII letters and digits, `_` and `$`. Beyond ASCII every
/// character but white space is taken to continue an identifier.
pub open spec fn is_identifier_part(c: char) -> bool {
    let n = c as u32;
    ||| 0x30 <= n <= 0x39
    ||| 0x41 <= n <= 0x5a
    ||| 0x61 <= n <= 0x7a
    ||| n == 0x5f
    ||| n == 0x24
    ||| (n >= 0x80 && !is_whitespace(c))
}

/// The snippet already begins with the return keyword: with `return` at its
/// very end or before a character that cannot continue an identifier, as in
/// `return 1`, `return;` and `return(1)`, and unlike `returned`.
pub open spec fn has_explicit_return(t: Seq<char>) -> bool {
    "return"@.is_prefix_of(t) && (t.len() == 6 || !is_identifier_part(t[6]))
}

/// A statement terminator stands somewhere before the snippet's last
/// character.
pub open spec fn has_inner_terminator(t: Seq<char>) -> bool {
    if t.len() > 0 && t.last() == ';' {
        t.drop_last().contains(';')
    } else {
        t.contains(';')
    }
}

/// The snippet reads as a block of statements: it holds an inner terminator,
/// or opens with a declaration, a control-flow or an exception-handling
/// keyword and a space behind it. A keyword with anything else behind it, as
/// in `if(x) y()`, is no such sign.
pub open spec fn is_multi_statement(t: Seq<char>) -> bool {
    ||| has_inner_terminator(t)
    ||| "const "@.is_prefix_of(t)
    ||| "let "@.is_prefix_of(t)
    ||| "var "@.is_prefix_of(t)
    ||| "if "@.is_prefix_of(t)
    ||| "for "@.is_prefix_of(t)
    ||| "while "@.is_prefix_of(t)
    ||| "function "@.is_prefix_of(t)
    ||| "class "@.is_prefix_of(t)
    ||| "try "@.is_prefix_of(t)
}

/// The snippet reads as one expression: it opens with `await`, a bracket of
/// any kind or an access to `JSON`, or it ends in an immediately invoked call.
pub open spec fn is_single_expression(t: Seq<char>) -> bool {
    ||| "await "@.is_prefix_of(t)
    ||| "("@.is_prefix_of(t)
    ||| "JSON."@.is_prefix_of(t)
    ||| "{"@.is_prefix_of(t)
    ||| "["@.is_prefix_of(t)
    ||| ")()"@.is_suffix_of(t)
}

/// Whether a trimmed snippet gets the return keyword put before it.
pub open spec fn wants_return(t: Seq<char>) -> bool {
    !has_explicit_return(t) && (is_single_expression(t) || !is_multi_statement(t))
}

/// What [`prepare_script`] makes of a snippet: the trimmed snippet behind the
/// return keyword, or the snippet as it was given.
pub open spec fn prepared(s: Seq<char>) -> Seq<char> {
    let t = trimmed(s);
    if wants_return(t) {
        "return "@ + t
    } else {
        s
    }
}

/// The name of the notification channel on which the injected text reports.
/// All executions share it.
pub const NOTIFICATION_CHANNEL: &'static str = "__script_result";

/// The text sent to the remote engine, up to the name of the notification
/// channel.
pub const SHIM_OPENING: &'static str = "
        (function() {
            // Helper to send result back - checks for __TAURI__ availability
            function __sendResult(success, data, error) {
                try {
                    if (window.__TAURI__ && window.__TAURI__.event) {
                        window.__TAURI__.event.emit('";

/// The text between the name of the notification channel and the token.
pub const SHIM_HEAD: &'static str = "', {
                            exec_id: '";

/// The text between the token and the prepared snippet.
pub const SHIM_BODY: &'static str = "',
                            success: success,
                            data: data,
                            error: error
                        });
                    } else {
                        console.error('[MCP] __TAURI__ not available, cannot send result');
                    }
                } catch (e) {
                    console.error('[MCP] Failed to emit result:', e);
                }
            }

            // Execute the user script
            (async () => {
                try {
                    // Create function to execute user script
                    const __executeScript = async () => {
                        ";

/// The text behind the prepared snippet.
pub const SHIM_TAIL: &'static str = "
                    };

                    // Execute and get result
                    const __result = await __executeScript();

                    __sendResult(true, __result !== undefined ? __result : null, null);
                } catch (error) {
                    __sendResult(false, null, error.message || String(error));
                }
            })().catch(function(error) {
                // Catch any unhandled promise rejections
                __sendResult(false, null, error.message || String(error));
            });
        })();
        ";

/// The text that is injected for one execution: the reporting shim, closed
/// over `token`, around `snippet`.
pub open spec fn injected_script(token: Seq<char>, snippet: Seq<char>) -> Seq<char> {
    SHIM_OPENING@ + NOTIFICATION_CHANNEL@ + SHIM_HEAD@ + token + SHIM_BODY@ + snippet + SHIM_TAIL@
}

/// What is left of a trimmed text begins and ends with a character that is
/// no white space, unless nothing is left.
pub proof fn lemma_trimmed_is_bare(s: Seq<char>)
    ensures
        trimmed(s).len() > 0 ==> !is_whitespace(trimmed(s).first()) && !is_whitespace(
            trimmed(s).last(),
        ),
{
    lemma_trim_start(s);
    lemma_trim_end(trim_start(s));
}

/// `trim_start` leaves a text that does not begin with white space.
proof fn lemma_trim_start(s: Seq<char>)
    ensures
        trim_start(s).len() > 0 ==> !is_whitespace(trim_start(s).first()),
    decreases s.len(),
{
    if s.len() > 0 && is_whitespace(s.first()) {
        lemma_trim_start(s.drop_first());
    }
}

/// `trim_end` leaves a beginning of the text that does not end with white
/// space.
proof fn lemma_trim_end(s: Seq<char>)
    ensures
        trim_end(s).is_prefix_of(s),
        trim_end(s).len() > 0 ==> !is_whitespace(trim_end(s).last()),
    decreases s.len(),
{
    if s.len() > 0 && is_whitespace(s.last()) {
        lemma_trim_end(s.drop_last());
    }
}

/// Preparing a prepared snippet changes nothing: the keyword is put before
/// a snippet once.
pub proof fn lemma_prepared_once(s: Seq<char>)
    ensures
        prepared(prepared(s)) == prepared(s),
{
    reveal_strlit("return ");
    reveal_strlit("return");
    let keyword = "return "@;
    let t = trimmed(s);
    if wants_return(t) {
        let r = keyword + t;
        lemma_trimmed_is_bare(s);
        assert(!is_whitespace(r.first()));
        assert(trim_start(r) == r);
        lemma_trim_end(r);
        if t.len() == 0 {
            assert(r =~= keyword);
            assert(is_whitespace(r.last()));
            assert(r.drop_last() =~= "return"@);
            assert(!is_whitespace(r.drop_last().last()));
            assert(trim_end(r.drop_last()) == r.drop_last());
            assert(trimmed(r) == "return"@);
        } else {
            assert(r.last() == t.last());
            assert(trim_end(r) == r);
            assert("return"@ =~= r.subrange(0, 6));
            assert(r[6] == ' ');
        }
        assert(has_explicit_return(trimmed(r)));
    }
}

/// Tells whether `c` can continue an identifier.
pub fn char_is_identifier_part(c: char) -> (r: bool)
    ensures
        r == is_identifier_part(c),
{
    let n: u32 = c as u32;
    (0x30 <= n && n <= 0x39)
        || (0x41 <= n && n <= 0x5a)
        || (0x61 <= n && n <= 0x7a)
        || n == 0x5f
        || n == 0x24
        || (n >= 0x80 && !char_is_whitespace(c))
}

/// Tells whether `c` is white space.
pub fn char_is_whitespace(c: char) -> (r: bool)
    ensures
        r == is_whitespace(c),
{
    let n: u32 = c as u32;
    (0x09 <= n && n <= 0x0d)
        || n == 0x20
        || n == 0x85
        || n == 0xa0
        || n == 0x1680
        || (0x2000 <= n && n <= 0x200a)
        || n == 0x2028
        || n == 0x2029
        || n == 0x202f
        || n == 0x205f
        || n == 0x3000
}

/// The characters of `s`, in order.
fn chars_of(s: &str) -> (v: Vec<char>)
    ensures
        v@ == s@,
{
    let mut v: Vec<char> = Vec::new();
    for c in it: s.chars()
        invariant
            it.seq() == s@,
            v@ == s@.take(it.index() as int),
    {
        v.push(c);
    }
    v
}

/// The bounds of `text` without its leading and trailing white space.
fn trim_bounds(text: &Vec<char>) -> (b: (usize, usize))
    ensures
        b.0 <= b.1 <= text.len(),
        text@.subrange(b.0 as int, b.1 as int) == trimmed(text@),
{
    let n = text.len();
    let mut start: usize = 0;
    assert(text@.skip(0) =~= text@);
    while start < n && char_is_whitespace(text[start])
        invariant
            start <= n,
            n == text.len(),
            trim_start(text@) == trim_start(text@.skip(start as int)),
        decreases n - start,
    {
        assert(text@.skip(start as int).drop_first() =~= text@.skip(start + 1));
        start += 1;
    }
    let mut end: usize = n;
    while end > start && char_is_whitespace(text[end - 1])
        invariant
            start <= end <= n,
            n == text.len(),
            trim_end(text@.skip(start as int)) == trim_end(
                text@.subrange(start as int, end as int),
            ),
        decreases end,
    {
        assert(text@.subrange(start as int, end as int).drop_last() =~= text@.subrange(
            start as int,
            end - 1,
        ));
        end -= 1;
    }
    (start, end)
}

/// Whether the window `start..end` of `text` begins with `pattern`.
fn starts_with(text: &Vec<char>, start: usize, end: usize, pattern: &str) -> (r: bool)
    requires
        start <= end <= text.len(),
    ensures
        r == pattern@.is_prefix_of(text@.subrange(start as int, end as int)),
{
    let pat = chars_of(pattern);
    let ghost window = text@.subrange(start as int, end as int);
    if pat.len() > end - start {
        return false;
    }
    let mut i: usize = 0;
    while i < pat.len()
        invariant
            i <= pat.len() <= end - start,
            end <= text.len(),
            pat@ == pattern@,
            window == text@.subrange(start as int, end as int),
            forall|j: int| 0 <= j < i ==> pat@[j] == window[j],
        decreases pat.len() - i,
    {
        if pat[i] != text[start + i] {
            return false;
        }
        i += 1;
    }
    true
}

/// Whether the window `start..end` of `text` ends with `pattern`.
fn ends_with(text: &Vec<char>, start: usize, end: usize, pattern: &str) -> (r: bool)
    requires
        start <= end <= text.len(),
    ensures
        r == pattern@.is_suffix_of(text@.subrange(start as int, end as int)),
{
    let pat = chars_of(pattern);
    let ghost window = text@.subrange(start as int, end as int);
    if pat.len() > end - start {
        return false;
    }
    let from: usize = end - pat.len();
    let ghost tail = window.subrange(window.len() - pat.len(), window.len() as int);
    let mut i: usize = 0;
    while i < pat.len()
        invariant
            i <= pat.len() <= end - start,
            end <= text.len(),
            from == end - pat.len(),
            window == text@.subrange(start as int, end as int),
            pat@ == pattern@,
            tail == window.subrange(window.len() - pat.len(), window.len() as int),
            forall|j: int| 0 <= j < i ==> pat@[j] == tail[j],
        decreases pat.len() - i,
    {
        if pat[i] != text[from + i] {
            return false;
        }
        i += 1;
    }
    true
}

/// Whether `c` occurs in the window `start..end` of `text`.
fn contains(text: &Vec<char>, start: usize, end: usize, c: char) -> (r: bool)
    requires
        start <= end <= text.len(),
    ensures
        r == text@.subrange(start as int, end as int).contains(c),
{
    let ghost window = text@.subrange(start as int, end as int);
    let mut i: usize = start;
    while i < end
        invariant
            start <= i <= end <= text.len(),
            window == text@.subrange(start as int, end as int),
            forall|j: int| 0 <= j < i - start ==> window[j] != c,
        decreases end - i,
    {
        if text[i] == c {
            assert(window[i - start] == c);
            return true;
        }
        i += 1;
    }
    false
}

/// Puts the return keyword before a snippet that reads as one expression and
/// leaves any other snippet as it is.
///
/// The snippet is judged without its surrounding white space. One that begins
/// with the return keyword is left alone. Otherwise the keyword is added when
/// the snippet shows a sign of being one expression, or shows no sign of
/// being a block of statements; it is then added to the trimmed snippet.
pub fn prepare_script(script: &str) -> (r: String)
    ensures
        r@ == prepared(script@),
{
    let text = chars_of(script);
    let (start, end) = trim_bounds(&text);
    let ghost t = trimmed(script@);
    let inner = if end > start && text[end - 1] == ';' {
        assert(t.drop_last() =~= text@.subrange(start as int, end - 1));
        contains(&text, start, end - 1, ';')
    } else {
        contains(&text, start, end, ';')
    };
    let multi = inner
        || starts_with(&text, start, end, "const ")
        || starts_with(&text, start, end, "let ")
        || starts_with(&text, start, end, "var ")
        || starts_with(&text, start, end, "if ")
        || starts_with(&text, start, end, "for ")
        || starts_with(&text, start, end, "while ")
        || starts_with(&text, start, end, "function ")
        || starts_with(&text, start, end, "class ")
        || starts_with(&text, start, end, "try ");
    let single = starts_with(&text, start, end, "await ")
        || starts_with(&text, start, end, "(")
        || starts_with(&text, start, end, "JSON.")
        || starts_with(&text, start, end, "{")
        || starts_with(&text, start, end, "[")
        || ends_with(&text, start, end, ")()");
    proof {
        reveal_strlit("return");
    }
    let explicit = starts_with(&text, start, end, "return") && (end - start == 6
        || !char_is_identifier_part(text[start + 6]));
    if !explicit && (single || !multi) {
        let body = script.substring_char(start, end);
        String::from_str("return ").concat(body)
    } else {
        String::from_str(script)
    }
}

/// Renders the text that is injected into the remote engine for one
/// execution.
///
/// The text defines a reporting function that packs `exec_id` (the token),
/// `success`, `data` and `error` into one notification, runs `snippet` inside
/// a nested asynchronous function, and reports its value, or the message of
/// whatever it threw. Nothing else in the text emits a notification.
pub fn build_injected_script(token: &str, snippet: &str) -> (text: String)
    ensures
        text@ == injected_script(token@, snippet@),
{
    let mut text = String::from_str(SHIM_OPENING);
    text.append(NOTIFICATION_CHANNEL);
    text.append(SHIM_HEAD);
    text.append(token);
    text.append(SHIM_BODY);
    text.append(snippet);
    text.append(SHIM_TAIL);
    text
}

} // verus!
