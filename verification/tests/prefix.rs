use parakeet_cpp::common_prefix_len;

#[test]
fn prefix_basic() {
    assert_eq!(
        common_prefix_len("ciao mondo", "ciao mondo bello"),
        "ciao mondo".len()
    );
    assert_eq!(common_prefix_len("", "abc"), 0);
    assert_eq!(common_prefix_len("abc", "abc"), "abc".len());
    assert_eq!(common_prefix_len("abc", "abd"), 2);
}

#[test]
fn prefix_is_char_boundary_safe() {
    // "è" is 2 bytes; differing after it must not split a char.
    let a = "perchè";
    let b = "perché";
    let n = common_prefix_len(a, b);
    assert!(a.is_char_boundary(n) && b.is_char_boundary(n));
}

#[test]
fn prefix_snaps_back_to_shared_char() {
    // "è" and "é" share their first UTF-8 byte (0xC3); the cut falls before it.
    assert_eq!(common_prefix_len("perchè", "perché"), "perch".len());
}

#[test]
fn prefix_is_symmetric() {
    let pairs = [
        ("ciao mondo", "ciao mondo bello"),
        ("perchè", "perché"),
        ("", "x"),
        ("日本語", "日本人"),
    ];
    for (a, b) in pairs {
        assert_eq!(common_prefix_len(a, b), common_prefix_len(b, a));
    }
}

#[test]
fn prefix_of_self_is_whole_text() {
    for s in ["", "a", "perché", "日本語のテキスト", "🎤 ok"] {
        assert_eq!(common_prefix_len(s, s), s.len());
    }
}

#[test]
fn prefix_of_longer_text_is_shorter_text() {
    let a = "Questa è la prima";
    let b = "Questa è la prima frase";
    assert_eq!(common_prefix_len(a, b), a.len());
}

#[test]
fn prefix_multibyte_shared_chars_counted_in_bytes() {
    // three-byte chars: the first two are shared, the third differs in its last byte
    assert_eq!(common_prefix_len("日本語", "日本人"), "日本".len());
    // four-byte chars differing only in the last byte
    assert_eq!(common_prefix_len("a😀", "a😁"), 1);
}

#[test]
fn prefix_split_leaves_valid_tail() {
    let prev = "Questa è la prima fra";
    let next = "Questa è la prima frase di prova";
    let n = common_prefix_len(prev, next);
    assert_eq!(&next[n..], "se di prova");
    assert_eq!(&next[..n], prev);
}

#[test]
fn prefix_disjoint_texts() {
    assert_eq!(common_prefix_len("abc", "xyz"), 0);
    assert_eq!(common_prefix_len("é", "è"), 0);
}
