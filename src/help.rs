//! Turning the plain help text into HTML with its addresses as links.
use vstd::prelude::*;

verus! {

/// The characters with Unicode's White_Space property, as `char::is_whitespace`
/// tests them.
pub open spec fn white_space(c: char) -> bool {
    ('\u{9}' <= c && c <= '\u{d}') || c == ' ' || c == '\u{85}' || c == '\u{a0}' || c
        == '\u{1680}' || ('\u{2000}' <= c && c <= '\u{200a}') || c == '\u{2028}' || c
        == '\u{2029}' || c == '\u{202f}' || c == '\u{205f}' || c == '\u{3000}'
}

pub open spec fn starts_with(s: Seq<char>, p: Seq<char>) -> bool {
    p.len() <= s.len() && s.take(p.len() as int) == p
}

/// The words of a text split at every space, built up character by
/// character: a space closes the current word and opens an empty one.
pub open spec fn words(s: Seq<char>) -> Seq<Seq<char>>
    decreases s.len(),
{
    if s.len() == 0 {
        seq![Seq::empty()]
    } else {
        let ws = words(s.drop_last());
        if s.last() == ' ' {
            ws.push(Seq::empty())
        } else {
            ws.update(ws.len() - 1, ws.last().push(s.last()))
        }
    }
}

/// A word that starts like an address.
pub open spec fn is_link_word(w: Seq<char>) -> bool {
    starts_with(w, "http://"@) || starts_with(w, "https://"@) || starts_with(w, "qrcode.show"@)
        || starts_with(w, "qrqr.show"@)
}

/// The length of the word's leading run of characters that are not white
/// space.
pub open spec fn link_len(w: Seq<char>) -> nat
    decreases w.len(),
{
    if w.len() == 0 || white_space(w[0]) {
        0
    } else {
        1 + link_len(w.skip(1))
    }
}

/// An anchor for an address; one without a scheme gets a scheme-relative
/// `//` reference.
pub open spec fn anchor(l: Seq<char>) -> Seq<char> {
    if starts_with(l, "http://"@) || starts_with(l, "https://"@) {
        "<a href=\""@ + l + "\">"@ + l + "</a>"@
    } else {
        "<a href=\"//"@ + l + "\">"@ + l + "</a>"@
    }
}

/// A word of the help text in HTML: the address at the head of a link word
/// becomes an anchor and the rest follows it; other words stay as they are.
pub open spec fn word_html(w: Seq<char>) -> Seq<char> {
    if is_link_word(w) {
        anchor(w.take(link_len(w) as int)) + w.skip(link_len(w) as int)
    } else {
        w
    }
}

/// Each word in HTML, followed by a space.
pub open spec fn join_words(ws: Seq<Seq<char>>) -> Seq<char>
    decreases ws.len(),
{
    if ws.len() == 0 {
        Seq::empty()
    } else {
        join_words(ws.drop_last()) + word_html(ws.last()) + " "@
    }
}

/// The HTML form of a help text.
pub open spec fn help_html(s: Seq<char>) -> Seq<char> {
    join_words(words(s))
}

fn is_white_space(c: char) -> (r: bool)
    ensures
        r == white_space(c),
{
    ('\u{9}' <= c && c <= '\u{d}') || c == ' ' || c == '\u{85}' || c == '\u{a0}' || c
        == '\u{1680}' || ('\u{2000}' <= c && c <= '\u{200a}') || c == '\u{2028}' || c
        == '\u{2029}' || c == '\u{202f}' || c == '\u{205f}' || c == '\u{3000}'
}

fn has_prefix(s: &str, p: &str) -> (r: bool)
    ensures
        r == starts_with(s@, p@),
{
    let n = p.unicode_len();
    if n > s.unicode_len() {
        return false;
    }
    let mut i: usize = 0;
    while i < n
        invariant
            n == p@.len(),
            n <= s@.len(),
            i <= n,
            forall|j: int| 0 <= j < i ==> s@[j] == p@[j],
        decreases n - i,
    {
        if s.get_char(i) != p.get_char(i) {
            assert(s@.take(n as int)[i as int] != p@[i as int]);
            return false;
        }
        i = i + 1;
    }
    assert(s@.take(n as int) =~= p@);
    true
}

proof fn lemma_link_len(w: Seq<char>, k: int)
    requires
        0 <= k <= w.len(),
        forall|j: int| 0 <= j < k ==> !white_space(#[trigger] w[j]),
        k == w.len() || white_space(w[k]),
    ensures
        link_len(w) == k,
    decreases k,
{
    if k > 0 {
        assert forall|j: int| 0 <= j < k - 1 implies !white_space(#[trigger] w.skip(1)[j]) by {
            assert(w.skip(1)[j] == w[j + 1]);
        }
        if k < w.len() {
            assert(w.skip(1)[k - 1] == w[k]);
        }
        lemma_link_len(w.skip(1), k - 1);
    }
}

/// Appends the HTML of one word.
fn append_word(result: &mut String, w: &str)
    ensures
        final(result)@ == old(result)@ + word_html(w@),
{
    if has_prefix(w, "http://") || has_prefix(w, "https://") || has_prefix(w, "qrcode.show")
        || has_prefix(w, "qrqr.show") {
        let n = w.unicode_len();
        let mut k: usize = 0;
        while k < n && !is_white_space(w.get_char(k))
            invariant
                n == w@.len(),
                k <= n,
                forall|j: int| 0 <= j < k ==> !white_space(#[trigger] w@[j]),
            decreases n - k,
        {
            k = k + 1;
        }
        proof {
            lemma_link_len(w@, k as int);
        }
        let link = w.substring_char(0, k);
        let rest = w.substring_char(k, n);
        assert(link@ == w@.take(k as int));
        assert(rest@ == w@.skip(k as int));
        if has_prefix(link, "http://") || has_prefix(link, "https://") {
            result.append("<a href=\"");
        } else {
            result.append("<a href=\"//");
        }
        result.append(link);
        result.append("\">");
        result.append(link);
        result.append("</a>");
        result.append(rest);
    } else {
        result.append(w);
    }
}

/// Renders the help text as HTML: the text is split at every space, each
/// word that starts with `http://`, `https://`, `qrcode.show` or
/// `qrqr.show` has its address made a link, and every word is followed by
/// a space.
pub fn txt_to_html(txt: &str) -> (r: String)
    ensures
        r@ == help_html(txt@),
{
    let n = txt.unicode_len();
    let mut result = String::new();
    let mut start: usize = 0;
    let mut i: usize = 0;
    let ghost mut done: Seq<Seq<char>> = Seq::empty();
    proof {
        assert(txt@.take(0) =~= Seq::<char>::empty());
        assert(txt@.subrange(0, 0) =~= Seq::<char>::empty());
    }
    while i < n
        invariant
            n == txt@.len(),
            start <= i <= n,
            words(txt@.take(i as int)) == done.push(txt@.subrange(start as int, i as int)),
            result@ == join_words(done),
        decreases n - i,
    {
        let c = txt.get_char(i);
        let ghost cur = txt@.subrange(start as int, i as int);
        proof {
            assert(txt@.take(i + 1).drop_last() =~= txt@.take(i as int));
            assert(txt@.take(i + 1).last() == c);
        }
        if c == ' ' {
            let word = txt.substring_char(start, i);
            append_word(&mut result, word);
            result.append(" ");
            proof {
                assert(done.push(cur).drop_last() =~= done);
                done = done.push(cur);
                assert(txt@.subrange(i + 1, i + 1) =~= Seq::<char>::empty());
            }
            start = i + 1;
        } else {
            proof {
                assert(txt@.subrange(start as int, i + 1) =~= cur.push(c));
                assert(done.push(cur).update(done.len() as int, cur.push(c)) =~= done.push(
                    cur.push(c),
                ));
            }
        }
        i = i + 1;
    }
    let word = txt.substring_char(start, n);
    append_word(&mut result, word);
    result.append(" ");
    proof {
        let ws = done.push(txt@.subrange(start as int, n as int));
        assert(txt@.take(n as int) =~= txt@);
        assert(ws.drop_last() =~= done);
    }
    result
}

} // verus!
