use qrcode_show::txt_to_html;

#[test]
fn plain_words_keep_their_spaces() {
    assert_eq!(txt_to_html(""), " ");
    assert_eq!(txt_to_html("a b"), "a b ");
    assert_eq!(txt_to_html("a  b"), "a  b ");
    assert_eq!(txt_to_html("line\nbreak"), "line\nbreak ");
}

#[test]
fn addresses_with_a_scheme_become_links() {
    assert_eq!(
        txt_to_html("see https://qrcode.show now"),
        "see <a href=\"https://qrcode.show\">https://qrcode.show</a> now "
    );
    assert_eq!(
        txt_to_html("http://x.y/z"),
        "<a href=\"http://x.y/z\">http://x.y/z</a> "
    );
}

#[test]
fn bare_hosts_get_a_relative_link() {
    assert_eq!(
        txt_to_html("qrqr.show/path"),
        "<a href=\"//qrqr.show/path\">qrqr.show/path</a> "
    );
    assert_eq!(
        txt_to_html("try qrcode.show\nnext"),
        "try <a href=\"//qrcode.show\">qrcode.show</a>\nnext "
    );
}

#[test]
fn link_stops_at_any_white_space() {
    assert_eq!(
        txt_to_html("https://a.b\tc\u{3000}d"),
        "<a href=\"https://a.b\">https://a.b</a>\tc\u{3000}d "
    );
    assert_eq!(
        txt_to_html("qrcode.show\u{a0}!"),
        "<a href=\"//qrcode.show\">qrcode.show</a>\u{a0}! "
    );
}

#[test]
fn only_word_starts_count() {
    assert_eq!(txt_to_html("xhttps://a"), "xhttps://a ");
    assert_eq!(txt_to_html("qrcode.sho"), "qrcode.sho ");
    assert_eq!(txt_to_html("HTTP://A"), "HTTP://A ");
}
