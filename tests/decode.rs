use aheui::syllable::{Cho, Hangul, Jong, Jung};

#[test]
fn aheui_test_hangul() {
    let ga = Hangul { cho: Cho::G, jung: Jung::A, jong: Jong::Blank, c: '가' };
    assert!(Hangul::from_char('가') == ga);

    let a = Hangul { cho: Cho::Ng, jung: Jung::A, jong: Jong::Blank, c: '아' };
    assert!(Hangul::from_char('아') == a);

    let hih = Hangul { cho: Cho::H, jung: Jung::I, jong: Jong::H, c: '힣' };
    assert!(Hangul::from_char('힣') == hih);

    assert!(Hangul::from_char('A') == Hangul::none());
    assert!(Hangul::from_char('☆') == Hangul::none());
}

#[test]
fn main_test_hangul() {
    let ga = Hangul { cho: Cho::G, jung: Jung::A, jong: Jong::Blank, c: '가' };
    assert!(Hangul::from_char('가') == ga);

    let a = Hangul { cho: Cho::Ng, jung: Jung::A, jong: Jong::Blank, c: '아' };
    assert!(Hangul::from_char('아') == a);

    let hih = Hangul { cho: Cho::H, jung: Jung::I, jong: Jong::H, c: '힣' };
    assert!(Hangul::from_char('힣') == hih);

    assert!(Hangul::from_char('A') == Hangul::none());
    assert!(Hangul::from_char('☆') == Hangul::none());
}

#[test]
fn aheui_test_jong() {
    assert!(Jong::Blank.val() == 0);
    assert!(Jong::G.val() == 2);
    assert!(Jong::Lp.val() == 9);
}

#[test]
fn main_test_jong() {
    assert!(Jong::Blank.val() == 0);
    assert!(Jong::G.val() == 2);
    assert!(Jong::Lp.val() == 9);
}

#[test]
fn decode_is_blank_exactly_outside_the_block() {
    for u in 0u32..0x11000 {
        if let Some(c) = char::from_u32(u) {
            let h = Hangul::from_char(c);
            let blank = h.cho == Cho::Blank && h.jung == Jung::Blank && h.jong == Jong::Blank;
            assert_eq!(blank, !(0xAC00..=0xD7A3).contains(&u), "code point {}", u);
        }
    }
}

#[test]
fn decode_parts_rebuild_the_character() {
    for u in 0xAC00u32..=0xD7A3 {
        let c = char::from_u32(u).unwrap();
        let h = Hangul::from_char(c);
        assert_eq!(h.c, c);
        let back = 0xAC00 + (h.cho as u32 * 21 + h.jung as u32) * 28 + h.jong as u32;
        assert_eq!(back, u);
    }
}

#[test]
fn decode_edges_of_the_block() {
    assert_eq!(Hangul::from_char('\u{ABFF}'), Hangul::none());
    assert_eq!(Hangul::from_char('\u{D7A4}'), Hangul::none());
    let first = Hangul::from_char('\u{AC00}');
    assert_eq!((first.cho, first.jung, first.jong), (Cho::G, Jung::A, Jong::Blank));
    let h = Hangul::from_char('빠');
    assert_eq!((h.cho, h.jung, h.jong), (Cho::Bb, Jung::A, Jong::Blank));
    let h = Hangul::from_char('붉');
    assert_eq!((h.cho, h.jung, h.jong), (Cho::B, Jung::U, Jong::Lg));
}

#[test]
fn jong_numerals() {
    let expected: [(Jong, usize); 26] = [
        (Jong::Blank, 0), (Jong::G, 2), (Jong::Gg, 4), (Jong::Gs, 4), (Jong::N, 2),
        (Jong::Nj, 5), (Jong::Nh, 5), (Jong::D, 3), (Jong::L, 5), (Jong::Lg, 7),
        (Jong::Lm, 9), (Jong::Lb, 9), (Jong::Ls, 7), (Jong::Lt, 9), (Jong::Lp, 9),
        (Jong::Lh, 8), (Jong::M, 4), (Jong::B, 4), (Jong::Bs, 6), (Jong::S, 2),
        (Jong::Ss, 4), (Jong::J, 3), (Jong::Ch, 4), (Jong::K, 3), (Jong::T, 4),
        (Jong::P, 4),
    ];
    for (j, v) in expected.iter() {
        assert_eq!(j.val(), *v, "{:?}", j);
    }
    assert_eq!(Jong::H.code(), 27);
    assert_eq!(Jong::Ng.code(), 21);
}
