//! The iterators, in ASCII and in full Unicode case mapping: what they yield,
//! their size hints and their counts.

use bstr::ByteSlice;
use roe::lowercase::ascii::Lowercase as AsciiLowercase;
use roe::lowercase::full::Lowercase as FullLowercase;
use roe::titlecase::ascii::Titlecase as AsciiTitlecase;
use roe::titlecase::full::Titlecase as FullTitlecase;
use roe::uppercase::ascii::Uppercase as AsciiUppercase;
use roe::uppercase::full::Uppercase as FullUppercase;
use roe::{Lowercase, Titlecase, Uppercase};

#[test]
fn lowercase_empty() {
    let iter = Lowercase::new();
    assert_eq!(iter.collect().as_bstr(), b"".as_bstr());

    let iter = Lowercase::with_slice(b"");
    assert_eq!(iter.collect().as_bstr(), b"".as_bstr());

    let iter = Lowercase::with_ascii_slice(b"");
    assert_eq!(iter.collect().as_bstr(), b"".as_bstr());
}

#[test]
fn lowercase_size_hint() {
    assert_eq!(Lowercase::new().size_hint(), (0, Some(0)));

    assert_eq!(Lowercase::with_slice(b"abc, xyz").size_hint(), (8, Some(8)));
    assert_eq!(
        Lowercase::with_slice(b"abc, \xFF\xFE, xyz").size_hint(),
        (12, Some(144))
    );
    assert_eq!(
        Lowercase::with_slice("�".as_bytes()).size_hint(),
        (3, Some(36))
    );
    assert_eq!(
        Lowercase::with_slice("Έτος".as_bytes()).size_hint(),
        (8, Some(96))
    );
    assert_eq!(
        Lowercase::with_slice("ZȺȾ".as_bytes()).size_hint(),
        (5, Some(60))
    );

    let mut utf8_with_invalid_bytes = b"\xFF\xFE".to_vec();
    utf8_with_invalid_bytes.extend_from_slice("Έτος".as_bytes());
    assert_eq!(
        Lowercase::with_slice(&utf8_with_invalid_bytes).size_hint(),
        (10, Some(120))
    );

    assert_eq!(
        Lowercase::with_ascii_slice(b"abc, xyz").size_hint(),
        (8, Some(8))
    );
    assert_eq!(
        Lowercase::with_ascii_slice(b"abc, \xFF\xFE, xyz").size_hint(),
        (12, Some(12))
    );
    assert_eq!(
        Lowercase::with_ascii_slice("�".as_bytes()).size_hint(),
        (3, Some(3))
    );
    assert_eq!(
        Lowercase::with_ascii_slice("Έτος".as_bytes()).size_hint(),
        (8, Some(8))
    );
    assert_eq!(
        Lowercase::with_ascii_slice("ZȺȾ".as_bytes()).size_hint(),
        (5, Some(5))
    );

    let mut utf8_with_invalid_bytes = b"\xFF\xFE".to_vec();
    utf8_with_invalid_bytes.extend_from_slice("Έτος".as_bytes());
    assert_eq!(
        Lowercase::with_ascii_slice(&utf8_with_invalid_bytes).size_hint(),
        (10, Some(10))
    );
}

#[test]
fn lowercase_count() {
    assert_eq!(Lowercase::new().count(), 0);

    assert_eq!(Lowercase::with_slice(b"abc, xyz").count(), 8);
    assert_eq!(Lowercase::with_slice(b"abc, \xFF\xFE, xyz").count(), 12);
    assert_eq!(Lowercase::with_slice("�".as_bytes()).count(), 3);
    assert_eq!(Lowercase::with_slice("Έτος".as_bytes()).count(), 8);
    assert_eq!(Lowercase::with_slice("ZȺȾ".as_bytes()).count(), 7);

    let mut utf8_with_invalid_bytes = b"\xFF\xFE".to_vec();
    utf8_with_invalid_bytes.extend_from_slice("Έτος".as_bytes());
    assert_eq!(Lowercase::with_slice(&utf8_with_invalid_bytes).count(), 10);

    assert_eq!(Lowercase::with_ascii_slice(b"abc, xyz").count(), 8);
    assert_eq!(
        Lowercase::with_ascii_slice(b"abc, \xFF\xFE, xyz").count(),
        12
    );
    assert_eq!(Lowercase::with_ascii_slice("�".as_bytes()).count(), 3);
    assert_eq!(Lowercase::with_ascii_slice("Έτος".as_bytes()).count(), 8);
    assert_eq!(Lowercase::with_ascii_slice("ZȺȾ".as_bytes()).count(), 5);

    let mut utf8_with_invalid_bytes = b"\xFF\xFE".to_vec();
    utf8_with_invalid_bytes.extend_from_slice("Έτος".as_bytes());
    assert_eq!(
        Lowercase::with_ascii_slice(&utf8_with_invalid_bytes).count(),
        10
    );
}

#[test]
fn lowercase_size_hint_covers_count() {
    let iter = Lowercase::new();
    let (min, max) = iter.size_hint();
    let count = iter.count();
    assert!(min <= count);
    assert!(count <= max.unwrap());
}

#[test]
fn ascii_empty() {
    {
        let iter = AsciiLowercase::from(&b""[..]);
        assert_eq!(iter.collect().as_bstr(), b"".as_bstr());
    }
    {
        let iter = AsciiTitlecase::from(&b""[..]);
        assert_eq!(iter.collect().as_bstr(), b"".as_bstr());
    }
    {
        let iter = AsciiUppercase::from(&b""[..]);
        assert_eq!(iter.collect().as_bstr(), b"".as_bstr());
    }
}

#[test]
fn ascii_ascii() {
    {
        let iter = AsciiLowercase::from(&b"abc"[..]);
        assert_eq!(iter.collect().as_bstr(), b"abc".as_bstr());

        let iter = AsciiLowercase::from(&b"aBC"[..]);
        assert_eq!(iter.collect().as_bstr(), b"abc".as_bstr());

        let iter = AsciiLowercase::from(&b"ABC"[..]);
        assert_eq!(iter.collect().as_bstr(), b"abc".as_bstr());

        let iter = AsciiLowercase::from(&b"aBC, 123, ABC, baby you and me girl"[..]);
        assert_eq!(
            iter.collect().as_bstr(),
            b"abc, 123, abc, baby you and me girl".as_bstr()
        );
    }
    {
        let iter = AsciiTitlecase::from(&b"abc"[..]);
        assert_eq!(iter.collect().as_bstr(), b"Abc".as_bstr());

        let iter = AsciiTitlecase::from(&b"aBC"[..]);
        assert_eq!(iter.collect().as_bstr(), b"Abc".as_bstr());

        let iter = AsciiTitlecase::from(&b"ABC"[..]);
        assert_eq!(iter.collect().as_bstr(), b"Abc".as_bstr());

        let iter = AsciiTitlecase::from(&b"aBC, 123, ABC, baby you and me girl"[..]);
        assert_eq!(
            iter.collect().as_bstr(),
            b"Abc, 123, abc, baby you and me girl".as_bstr()
        );
    }
    {
        let iter = AsciiUppercase::from(&b"abc"[..]);
        assert_eq!(iter.collect().as_bstr(), b"ABC".as_bstr());

        let iter = AsciiUppercase::from(&b"aBC"[..]);
        assert_eq!(iter.collect().as_bstr(), b"ABC".as_bstr());

        let iter = AsciiUppercase::from(&b"ABC"[..]);
        assert_eq!(iter.collect().as_bstr(), b"ABC".as_bstr());

        let iter = AsciiUppercase::from(&b"aBC, 123, ABC, baby you and me girl"[..]);
        assert_eq!(
            iter.collect().as_bstr(),
            b"ABC, 123, ABC, BABY YOU AND ME GIRL".as_bstr()
        );
    }
}

#[test]
fn ascii_utf8() {
    {
        let s = "ß".as_bytes();
        let iter = AsciiLowercase::from(s);
        assert_eq!(iter.collect().as_bstr(), "ß".as_bytes().as_bstr());

        let s = "Αύριο".as_bytes();
        let iter = AsciiLowercase::from(s);
        assert_eq!(
            iter.collect().as_bstr(),
            "Αύριο".as_bytes().as_bstr()
        );

        let s = "Έτος".as_bytes();
        let iter = AsciiLowercase::from(s);
        assert_eq!(
            iter.collect().as_bstr(),
            "Έτος".as_bytes().as_bstr()
        );

        let s = "𐐜 𐐔𐐇𐐝𐐀𐐡𐐇𐐓 𐐙𐐊𐐡𐐝𐐓/𐐝𐐇𐐗𐐊𐐤𐐔 𐐒𐐋𐐗 𐐒𐐌 𐐜 𐐡𐐀𐐖𐐇𐐤𐐓𐐝 𐐱𐑂 𐑄 𐐔𐐇𐐝𐐀𐐡𐐇𐐓 𐐏𐐆𐐅𐐤𐐆𐐚𐐊𐐡𐐝𐐆𐐓𐐆".as_bytes();
        let iter = AsciiLowercase::from(s);
        assert_eq!(
            iter.collect().as_bstr(),
            "𐐜 𐐔𐐇𐐝𐐀𐐡𐐇𐐓 𐐙𐐊𐐡𐐝𐐓/𐐝𐐇𐐗𐐊𐐤𐐔 𐐒𐐋𐐗 𐐒𐐌 𐐜 𐐡𐐀𐐖𐐇𐐤𐐓𐐝 𐐱𐑂 𐑄 𐐔𐐇𐐝𐐀𐐡𐐇𐐓 𐐏𐐆𐐅𐐤𐐆𐐚𐐊𐐡𐐝𐐆𐐓𐐆"
                .as_bytes()
                .as_bstr()
        );

        let s = "ZȺȾ".as_bytes();
        let iter = AsciiLowercase::from(s);
        assert_eq!(
            iter.collect().as_bstr(),
            "zȺȾ".as_bytes().as_bstr()
        );
    }
    {
        let s = "ÃŸ".as_bytes();
        let iter = AsciiTitlecase::from(s);
        assert_eq!(iter.collect().as_bstr(), "ÃŸ".as_bytes().as_bstr());

        let s = "Î‘ÏÏÎ¹Î¿".as_bytes();
        let iter = AsciiTitlecase::from(s);
        assert_eq!(
            iter.collect().as_bstr(),
            "Î‘ÏÏÎ¹Î¿".as_bytes().as_bstr()
        );

        let s = "ÎˆÏ„Î¿Ï‚".as_bytes();
        let iter = AsciiTitlecase::from(s);
        assert_eq!(
            iter.collect().as_bstr(),
            "ÎˆÏ„Î¿Ï‚".as_bytes().as_bstr()
        );

        let s = "ğœ ğ”ğ‡ğğ€ğ¡ğ‡ğ“ ğ™ğŠğ¡ğğ“/ğğ‡ğ—ğŠğ¤ğ” ğ’ğ‹ğ— ğ’ğŒ ğœ ğ¡ğ€ğ–ğ‡ğ¤ğ“ğ ğ±ğ‘‚ ğ‘„ ğ”ğ‡ğğ€ğ¡ğ‡ğ“ ğğ†ğ…ğ¤ğ†ğšğŠğ¡ğğ†ğ“ğ†".as_bytes();
        let iter = AsciiTitlecase::from(s);
        assert_eq!(
            iter.collect().as_bstr(),
            "ğœ ğ”ğ‡ğğ€ğ¡ğ‡ğ“ ğ™ğŠğ¡ğğ“/ğğ‡ğ—ğŠğ¤ğ” ğ’ğ‹ğ— ğ’ğŒ ğœ ğ¡ğ€ğ–ğ‡ğ¤ğ“ğ ğ±ğ‘‚ ğ‘„ ğ”ğ‡ğğ€ğ¡ğ‡ğ“ ğğ†ğ…ğ¤ğ†ğšğŠğ¡ğğ†ğ“ğ†"
                .as_bytes()
                .as_bstr()
        );

        let s = "â±¥È¾È¾Z".as_bytes();
        let titlecased = AsciiTitlecase::from(s).collect();
        assert_eq!(titlecased.as_bstr(), "â±¥È¾È¾z".as_bytes().as_bstr());
        assert_eq!(s.len(), titlecased.len());
    }
    {
        let s = "ÃŸ".as_bytes();
        let iter = AsciiUppercase::from(s);
        assert_eq!(iter.collect().as_bstr(), "ÃŸ".as_bytes().as_bstr());

        let s = "Î‘ÏÏÎ¹Î¿".as_bytes();
        let iter = AsciiUppercase::from(s);
        assert_eq!(
            iter.collect().as_bstr(),
            "Î‘ÏÏÎ¹Î¿".as_bytes().as_bstr()
        );

        let s = "ÎˆÏ„Î¿Ï‚".as_bytes();
        let iter = AsciiUppercase::from(s);
        assert_eq!(
            iter.collect().as_bstr(),
            "ÎˆÏ„Î¿Ï‚".as_bytes().as_bstr()
        );

        let s = "ğœ ğ”ğ‡ğğ€ğ¡ğ‡ğ“ ğ™ğŠğ¡ğğ“/ğğ‡ğ—ğŠğ¤ğ” ğ’ğ‹ğ— ğ’ğŒ ğœ ğ¡ğ€ğ–ğ‡ğ¤ğ“ğ ğ±ğ‘‚ ğ‘„ ğ”ğ‡ğğ€ğ¡ğ‡ğ“ ğğ†ğ…ğ¤ğ†ğšğŠğ¡ğğ†ğ“ğ†".as_bytes();
        let iter = AsciiUppercase::from(s);
        assert_eq!(
            iter.collect().as_bstr(),
            "ğœ ğ”ğ‡ğğ€ğ¡ğ‡ğ“ ğ™ğŠğ¡ğğ“/ğğ‡ğ—ğŠğ¤ğ” ğ’ğ‹ğ— ğ’ğŒ ğœ ğ¡ğ€ğ–ğ‡ğ¤ğ“ğ ğ±ğ‘‚ ğ‘„ ğ”ğ‡ğğ€ğ¡ğ‡ğ“ ğğ†ğ…ğ¤ğ†ğšğŠğ¡ğğ†ğ“ğ†"
                .as_bytes()
                .as_bstr()
        );

        let s = "zâ±¥â±¦".as_bytes();
        let uppercased = AsciiUppercase::from(s).collect();
        assert_eq!(uppercased.as_bstr(), "Zâ±¥â±¦".as_bytes().as_bstr());
        assert_eq!(s.len(), uppercased.len());
    }
}

#[test]
fn ascii_invalid_utf8() {
    {
        let iter = AsciiLowercase::from(&b"\xFF\xFE"[..]);
        assert_eq!(iter.collect().as_bstr(), b"\xFF\xFE".as_bstr());

        let iter = AsciiLowercase::from(&b"ABC\xFF\xFEXYZ"[..]);
        assert_eq!(
            iter.collect().as_bstr(),
            b"abc\xFF\xFExyz".as_bstr()
        );

        let iter = AsciiLowercase::from(&b"abc\xFF\xFEXYZ"[..]);
        assert_eq!(
            iter.collect().as_bstr(),
            b"abc\xFF\xFExyz".as_bstr()
        );

        let iter = AsciiLowercase::from(&b"aB\xF0\x9F\x87Yz"[..]);
        assert_eq!(
            iter.collect().as_bstr(),
            b"ab\xF0\x9F\x87yz".as_bstr()
        );
    }
    {
        let iter = AsciiTitlecase::from(&b"\xFF\xFE"[..]);
        assert_eq!(iter.collect().as_bstr(), b"\xFF\xFE".as_bstr());

        let iter = AsciiTitlecase::from(&b"ABC\xFF\xFEXYZ"[..]);
        assert_eq!(
            iter.collect().as_bstr(),
            b"Abc\xFF\xFExyz".as_bstr()
        );

        let iter = AsciiTitlecase::from(&b"abc\xFF\xFEXYZ"[..]);
        assert_eq!(
            iter.collect().as_bstr(),
            b"Abc\xFF\xFExyz".as_bstr()
        );

        let iter = AsciiTitlecase::from(&b"aB\xF0\x9F\x87Yz"[..]);
        assert_eq!(
            iter.collect().as_bstr(),
            b"Ab\xF0\x9F\x87yz".as_bstr()
        );
    }
    {
        let iter = AsciiUppercase::from(&b"\xFF\xFE"[..]);
        assert_eq!(iter.collect().as_bstr(), b"\xFF\xFE".as_bstr());

        let iter = AsciiUppercase::from(&b"ABC\xFF\xFEXYZ"[..]);
        assert_eq!(
            iter.collect().as_bstr(),
            b"ABC\xFF\xFEXYZ".as_bstr()
        );

        let iter = AsciiUppercase::from(&b"abc\xFF\xFEXYZ"[..]);
        assert_eq!(
            iter.collect().as_bstr(),
            b"ABC\xFF\xFEXYZ".as_bstr()
        );

        let iter = AsciiUppercase::from(&b"aB\xF0\x9F\x87Yz"[..]);
        assert_eq!(
            iter.collect().as_bstr(),
            b"AB\xF0\x9F\x87YZ".as_bstr()
        );
    }
}

#[test]
fn ascii_unicode_replacement_character() {
    {
        let s = "�".as_bytes();
        let iter = AsciiLowercase::from(s);
        assert_eq!(iter.collect().as_bstr(), "�".as_bytes().as_bstr());
    }
    {
        let s = "ï¿½".as_bytes();
        let iter = AsciiTitlecase::from(s);
        assert_eq!(iter.collect().as_bstr(), "ï¿½".as_bytes().as_bstr());
    }
    {
        let s = "ï¿½".as_bytes();
        let iter = AsciiUppercase::from(s);
        assert_eq!(iter.collect().as_bstr(), "ï¿½".as_bytes().as_bstr());
    }
}

#[test]
fn ascii_dz_titlecase() {
    {
        let s = "ǅ".as_bytes();
        let iter = AsciiLowercase::from(s);
        assert_eq!(iter.collect().as_bstr(), "ǅ".as_bytes().as_bstr());
    }
    {
        let s = "Ç…".as_bytes();
        let iter = AsciiTitlecase::from(s);
        assert_eq!(iter.collect().as_bstr(), "Ç…".as_bytes().as_bstr());
    }
    {
        let s = "Ç…".as_bytes();
        let iter = AsciiUppercase::from(s);
        assert_eq!(iter.collect().as_bstr(), "Ç…".as_bytes().as_bstr());
    }
}

#[test]
fn ascii_latin_capital_i_with_dot_above() {
    {
        let s = "İ".as_bytes();
        let iter = AsciiLowercase::from(s);
        assert_eq!(iter.collect().as_bstr(), "İ".as_bytes().as_bstr());
    }
    {
        let s = "Ä°".as_bytes();
        let iter = AsciiTitlecase::from(s);
        assert_eq!(iter.collect().as_bstr(), "Ä°".as_bytes().as_bstr());
    }
    {
        let s = "Ä°".as_bytes();
        let iter = AsciiUppercase::from(s);
        assert_eq!(iter.collect().as_bstr(), "Ä°".as_bytes().as_bstr());
    }
}

#[test]
fn ascii_case_map_to_two_chars() {
    {
        let s = "İ".as_bytes();
        let iter = AsciiLowercase::from(s);
        assert_eq!(iter.collect().as_bstr(), "İ".as_bytes().as_bstr());
    }
    {
        let s = "Ä°".as_bytes();
        let iter = AsciiTitlecase::from(s);
        assert_eq!(iter.collect().as_bstr(), "Ä°".as_bytes().as_bstr());
    }
    {
        let s = "Ä°".as_bytes();
        let iter = AsciiUppercase::from(s);
        assert_eq!(iter.collect().as_bstr(), "Ä°".as_bytes().as_bstr());
    }
}

#[test]
fn ascii_size_hint() {
    {
        assert_eq!(AsciiLowercase::with_slice(b"").size_hint(), (0, Some(0)));
        assert_eq!(AsciiLowercase::with_slice(b"abc, xyz").size_hint(), (8, Some(8)));
        assert_eq!(
            AsciiLowercase::with_slice(b"abc, \xFF\xFE, xyz").size_hint(),
            (12, Some(12))
        );
        assert_eq!(
            AsciiLowercase::with_slice("�".as_bytes()).size_hint(),
            (3, Some(3))
        );
        assert_eq!(
            AsciiLowercase::with_slice("Έτος".as_bytes()).size_hint(),
            (8, Some(8))
        );
        assert_eq!(
            AsciiLowercase::with_slice("ZȺȾ".as_bytes()).size_hint(),
            (5, Some(5))
        );

        let mut utf8_with_invalid_bytes = b"\xFF\xFE".to_vec();
        utf8_with_invalid_bytes.extend_from_slice("Έτος".as_bytes());
        assert_eq!(
            AsciiLowercase::with_slice(&utf8_with_invalid_bytes).size_hint(),
            (10, Some(10))
        );
    }
    {
        assert_eq!(AsciiTitlecase::with_slice(b"").size_hint(), (0, Some(0)));
        assert_eq!(AsciiTitlecase::with_slice(b"abc, xyz").size_hint(), (8, Some(8)));
        assert_eq!(
            AsciiTitlecase::with_slice(b"abc, \xFF\xFE, xyz").size_hint(),
            (12, Some(12))
        );
        assert_eq!(
            AsciiTitlecase::with_slice("ï¿½".as_bytes()).size_hint(),
            (6, Some(6))
        );
        assert_eq!(
            AsciiTitlecase::with_slice("ÎˆÏ„Î¿Ï‚".as_bytes()).size_hint(),
            (18, Some(18))
        );
        assert_eq!(
            AsciiTitlecase::with_slice("ZÈºÈ¾".as_bytes()).size_hint(),
            (9, Some(9))
        );

        let mut utf8_with_invalid_bytes = b"\xFF\xFE".to_vec();
        utf8_with_invalid_bytes.extend_from_slice("ÎˆÏ„Î¿Ï‚".as_bytes());
        assert_eq!(
            AsciiTitlecase::with_slice(&utf8_with_invalid_bytes).size_hint(),
            (20, Some(20))
        );
    }
    {
        assert_eq!(AsciiUppercase::with_slice(b"").size_hint(), (0, Some(0)));
        assert_eq!(AsciiUppercase::with_slice(b"abc, xyz").size_hint(), (8, Some(8)));
        assert_eq!(
            AsciiUppercase::with_slice(b"abc, \xFF\xFE, xyz").size_hint(),
            (12, Some(12))
        );
        assert_eq!(
            AsciiUppercase::with_slice("ï¿½".as_bytes()).size_hint(),
            (6, Some(6))
        );
        assert_eq!(
            AsciiUppercase::with_slice("ÎˆÏ„Î¿Ï‚".as_bytes()).size_hint(),
            (18, Some(18))
        );
        assert_eq!(
            AsciiUppercase::with_slice("ZÈºÈ¾".as_bytes()).size_hint(),
            (9, Some(9))
        );

        let mut utf8_with_invalid_bytes = b"\xFF\xFE".to_vec();
        utf8_with_invalid_bytes.extend_from_slice("ÎˆÏ„Î¿Ï‚".as_bytes());
        assert_eq!(
            AsciiUppercase::with_slice(&utf8_with_invalid_bytes).size_hint(),
            (20, Some(20))
        );
    }
}

#[test]
fn ascii_count() {
    {
        assert_eq!(AsciiLowercase::with_slice(b"").count(), 0);
        assert_eq!(AsciiLowercase::with_slice(b"abc, xyz").count(), 8);
        assert_eq!(AsciiLowercase::with_slice(b"abc, \xFF\xFE, xyz").count(), 12);
        assert_eq!(AsciiLowercase::with_slice("�".as_bytes()).count(), 3);
        assert_eq!(AsciiLowercase::with_slice("Έτος".as_bytes()).count(), 8);
        assert_eq!(AsciiLowercase::with_slice("ZȺȾ".as_bytes()).count(), 5);

        let mut utf8_with_invalid_bytes = b"\xFF\xFE".to_vec();
        utf8_with_invalid_bytes.extend_from_slice("Έτος".as_bytes());
        assert_eq!(AsciiLowercase::with_slice(&utf8_with_invalid_bytes).count(), 10);
    }
    {
        assert_eq!(AsciiTitlecase::with_slice(b"").count(), 0);
        assert_eq!(AsciiTitlecase::with_slice(b"abc, xyz").count(), 8);
        assert_eq!(AsciiTitlecase::with_slice(b"abc, \xFF\xFE, xyz").count(), 12);
        assert_eq!(AsciiTitlecase::with_slice("ï¿½".as_bytes()).count(), 6);
        assert_eq!(AsciiTitlecase::with_slice("ÎˆÏ„Î¿Ï‚".as_bytes()).count(), 18);
        assert_eq!(AsciiTitlecase::with_slice("ZÈºÈ¾".as_bytes()).count(), 9);

        let mut utf8_with_invalid_bytes = b"\xFF\xFE".to_vec();
        utf8_with_invalid_bytes.extend_from_slice("ÎˆÏ„Î¿Ï‚".as_bytes());
        assert_eq!(AsciiTitlecase::with_slice(&utf8_with_invalid_bytes).count(), 20);
    }
    {
        assert_eq!(AsciiUppercase::with_slice(b"").count(), 0);
        assert_eq!(AsciiUppercase::with_slice(b"abc, xyz").count(), 8);
        assert_eq!(AsciiUppercase::with_slice(b"abc, \xFF\xFE, xyz").count(), 12);
        assert_eq!(AsciiUppercase::with_slice("ï¿½".as_bytes()).count(), 6);
        assert_eq!(AsciiUppercase::with_slice("ÎˆÏ„Î¿Ï‚".as_bytes()).count(), 18);
        assert_eq!(AsciiUppercase::with_slice("ZÈºÈ¾".as_bytes()).count(), 9);

        let mut utf8_with_invalid_bytes = b"\xFF\xFE".to_vec();
        utf8_with_invalid_bytes.extend_from_slice("ÎˆÏ„Î¿Ï‚".as_bytes());
        assert_eq!(AsciiUppercase::with_slice(&utf8_with_invalid_bytes).count(), 20);
    }
}

#[test]
fn ascii_size_hint_covers_count() {
    {
        let iter = AsciiLowercase::with_slice(b"");
        let (min, max) = iter.size_hint();
        let count = iter.count();
        assert!(min <= count);
        assert!(count <= max.unwrap());

        let iter = AsciiLowercase::with_slice(b"abc, xyz");
        let (min, max) = iter.size_hint();
        let count = iter.count();
        assert!(min <= count);
        assert!(count <= max.unwrap());

        let iter = AsciiLowercase::with_slice(b"abc, \xFF\xFE, xyz");
        let (min, max) = iter.size_hint();
        let count = iter.count();
        assert!(min <= count);
        assert!(count <= max.unwrap());

        let iter = AsciiLowercase::with_slice("�".as_bytes());
        let (min, max) = iter.size_hint();
        let count = iter.count();
        assert!(min <= count);
        assert!(count <= max.unwrap());

        let iter = AsciiLowercase::with_slice("Έτος".as_bytes());
        let (min, max) = iter.size_hint();
        let count = iter.count();
        assert!(min <= count);
        assert!(count <= max.unwrap());

        let iter = AsciiLowercase::with_slice("ZȺȾ".as_bytes());
        let (min, max) = iter.size_hint();
        let count = iter.count();
        assert!(min <= count);
        assert!(count <= max.unwrap());

        let mut utf8_with_invalid_bytes = b"\xFF\xFE".to_vec();
        utf8_with_invalid_bytes.extend_from_slice("Έτος".as_bytes());
        let iter = AsciiLowercase::with_slice(&utf8_with_invalid_bytes);
        let (min, max) = iter.size_hint();
        let count = iter.count();
        assert!(min <= count);
        assert!(count <= max.unwrap());
    }
    {
        let iter = AsciiTitlecase::with_slice(b"");
        let (min, max) = iter.size_hint();
        let count = iter.count();
        assert!(min <= count);
        assert!(count <= max.unwrap());

        let iter = AsciiTitlecase::with_slice(b"abc, xyz");
        let (min, max) = iter.size_hint();
        let count = iter.count();
        assert!(min <= count);
        assert!(count <= max.unwrap());

        let iter = AsciiTitlecase::with_slice(b"abc, \xFF\xFE, xyz");
        let (min, max) = iter.size_hint();
        let count = iter.count();
        assert!(min <= count);
        assert!(count <= max.unwrap());

        let iter = AsciiTitlecase::with_slice("ï¿½".as_bytes());
        let (min, max) = iter.size_hint();
        let count = iter.count();
        assert!(min <= count);
        assert!(count <= max.unwrap());

        let iter = AsciiTitlecase::with_slice("ÎˆÏ„Î¿Ï‚".as_bytes());
        let (min, max) = iter.size_hint();
        let count = iter.count();
        assert!(min <= count);
        assert!(count <= max.unwrap());

        let iter = AsciiTitlecase::with_slice("ZÈºÈ¾".as_bytes());
        let (min, max) = iter.size_hint();
        let count = iter.count();
        assert!(min <= count);
        assert!(count <= max.unwrap());

        let mut utf8_with_invalid_bytes = b"\xFF\xFE".to_vec();
        utf8_with_invalid_bytes.extend_from_slice("ÎˆÏ„Î¿Ï‚".as_bytes());
        let iter = AsciiTitlecase::with_slice(&utf8_with_invalid_bytes);
        let (min, max) = iter.size_hint();
        let count = iter.count();
        assert!(min <= count);
        assert!(count <= max.unwrap());
    }
    {
        let iter = AsciiUppercase::with_slice(b"");
        let (min, max) = iter.size_hint();
        let count = iter.count();
        assert!(min <= count);
        assert!(count <= max.unwrap());

        let iter = AsciiUppercase::with_slice(b"abc, xyz");
        let (min, max) = iter.size_hint();
        let count = iter.count();
        assert!(min <= count);
        assert!(count <= max.unwrap());

        let iter = AsciiUppercase::with_slice(b"abc, \xFF\xFE, xyz");
        let (min, max) = iter.size_hint();
        let count = iter.count();
        assert!(min <= count);
        assert!(count <= max.unwrap());

        let iter = AsciiUppercase::with_slice("ï¿½".as_bytes());
        let (min, max) = iter.size_hint();
        let count = iter.count();
        assert!(min <= count);
        assert!(count <= max.unwrap());

        let iter = AsciiUppercase::with_slice("ÎˆÏ„Î¿Ï‚".as_bytes());
        let (min, max) = iter.size_hint();
        let count = iter.count();
        assert!(min <= count);
        assert!(count <= max.unwrap());

        let iter = AsciiUppercase::with_slice("ZÈºÈ¾".as_bytes());
        let (min, max) = iter.size_hint();
        let count = iter.count();
        assert!(min <= count);
        assert!(count <= max.unwrap());

        let mut utf8_with_invalid_bytes = b"\xFF\xFE".to_vec();
        utf8_with_invalid_bytes.extend_from_slice("ÎˆÏ„Î¿Ï‚".as_bytes());
        let iter = AsciiUppercase::with_slice(&utf8_with_invalid_bytes);
        let (min, max) = iter.size_hint();
        let count = iter.count();
        assert!(min <= count);
        assert!(count <= max.unwrap());
    }
}

#[test]
fn full_empty() {
    {
        let iter = FullLowercase::from(&b""[..]);
        assert_eq!(iter.collect().as_bstr(), b"".as_bstr());
    }
    {
        let iter = FullTitlecase::from(&b""[..]);
        assert_eq!(iter.collect().as_bstr(), b"".as_bstr());
    }
    {
        let iter = FullUppercase::from(&b""[..]);
        assert_eq!(iter.collect().as_bstr(), b"".as_bstr());
    }
}

#[test]
fn full_ascii() {
    {
        let iter = FullLowercase::from(&b"abc"[..]);
        assert_eq!(iter.collect().as_bstr(), b"abc".as_bstr());

        let iter = FullLowercase::from(&b"aBC"[..]);
        assert_eq!(iter.collect().as_bstr(), b"abc".as_bstr());

        let iter = FullLowercase::from(&b"ABC"[..]);
        assert_eq!(iter.collect().as_bstr(), b"abc".as_bstr());

        let iter = FullLowercase::from(&b"aBC, 123, ABC, baby you and me girl"[..]);
        assert_eq!(
            iter.collect().as_bstr(),
            b"abc, 123, abc, baby you and me girl".as_bstr()
        );
    }
    {
        let iter = FullTitlecase::from(&b"abc"[..]);
        assert_eq!(iter.collect().as_bstr(), b"Abc".as_bstr());

        let iter = FullTitlecase::from(&b"aBC"[..]);
        assert_eq!(iter.collect().as_bstr(), b"Abc".as_bstr());

        let iter = FullTitlecase::from(&b"ABC"[..]);
        assert_eq!(iter.collect().as_bstr(), b"Abc".as_bstr());

        let iter = FullTitlecase::from(&b"aBC, 123, ABC, baby you and me girl"[..]);
        assert_eq!(
            iter.collect().as_bstr(),
            b"Abc, 123, abc, baby you and me girl".as_bstr()
        );
    }
    {
        let iter = FullUppercase::from(&b"abc"[..]);
        assert_eq!(iter.collect().as_bstr(), b"ABC".as_bstr());

        let iter = FullUppercase::from(&b"aBC"[..]);
        assert_eq!(iter.collect().as_bstr(), b"ABC".as_bstr());

        let iter = FullUppercase::from(&b"ABC"[..]);
        assert_eq!(iter.collect().as_bstr(), b"ABC".as_bstr());

        let iter = FullUppercase::from(&b"aBC, 123, ABC, baby you and me girl"[..]);
        assert_eq!(
            iter.collect().as_bstr(),
            b"ABC, 123, ABC, BABY YOU AND ME GIRL".as_bstr()
        );
    }
}

#[test]
fn full_utf8() {
    {
        let s = "ß".as_bytes();
        let iter = FullLowercase::from(s);
        assert_eq!(iter.collect().as_bstr(), "ß".as_bytes().as_bstr());

        let s = "Αύριο".as_bytes();
        let iter = FullLowercase::from(s);
        assert_eq!(
            iter.collect().as_bstr(),
            "αύριο".as_bytes().as_bstr()
        );

        let s = "Έτος".as_bytes();
        let iter = FullLowercase::from(s);
        assert_eq!(
            iter.collect().as_bstr(),
            "έτος".as_bytes().as_bstr()
        );

        let s = "𐐜 𐐔𐐇𐐝𐐀𐐡𐐇𐐓 𐐙𐐊𐐡𐐝𐐓/𐐝𐐇𐐗𐐊𐐤𐐔 𐐒𐐋𐐗 𐐒𐐌 𐐜 𐐡𐐀𐐖𐐇𐐤𐐓𐐝 𐐱𐑂 𐑄 𐐔𐐇𐐝𐐀𐐡𐐇𐐓 𐐏𐐆𐐅𐐤𐐆𐐚𐐊𐐡𐐝𐐆𐐓𐐆".as_bytes();
        let iter = FullLowercase::from(s);
        assert_eq!(
            iter.collect().as_bstr(),
            "𐑄 𐐼𐐯𐑅𐐨𐑉𐐯𐐻 𐑁𐐲𐑉𐑅𐐻/𐑅𐐯𐐿𐐲𐑌𐐼 𐐺𐐳𐐿 𐐺𐐴 𐑄 𐑉𐐨𐐾𐐯𐑌𐐻𐑅 𐐱𐑂 𐑄 𐐼𐐯𐑅𐐨𐑉𐐯𐐻 𐐷𐐮𐐭𐑌𐐮𐑂𐐲𐑉𐑅𐐮𐐻𐐮"
                .as_bytes()
                .as_bstr()
        );

        let s = "ZȺȾ".as_bytes();
        let iter = FullLowercase::from(s);
        assert_eq!(
            iter.collect().as_bstr(),
            "zⱥⱦ".as_bytes().as_bstr()
        );
    }
    {
        let s = "ß".as_bytes();
        let iter = FullTitlecase::from(s);
        assert_eq!(
            iter.collect().as_bstr(),
            "Ss".as_bytes().as_bstr()
        );

        let s = "Αύριο".as_bytes();
        let iter = FullTitlecase::from(s);
        assert_eq!(
            iter.collect().as_bstr(),
            "Αύριο".as_bytes().as_bstr()
        );

        let s = "Έτος".as_bytes();
        let iter = FullTitlecase::from(s);
        assert_eq!(
            iter.collect().as_bstr(),
            "Έτος".as_bytes().as_bstr()
        );

        let s = "𐐜 𐐔𐐇𐐝𐐀𐐡𐐇𐐓 𐐙𐐊𐐡𐐝𐐓/𐐝𐐇𐐗𐐊𐐤𐐔 𐐒𐐋𐐗 𐐒𐐌 𐐜 𐐡𐐀𐐖𐐇𐐤𐐓𐐝 𐐱𐑂 𐑄 𐐔𐐇𐐝𐐀𐐡𐐇𐐓 𐐏𐐆𐐅𐐤𐐆𐐚𐐊𐐡𐐝𐐆𐐓𐐆".as_bytes();
        let iter = FullTitlecase::from(s);
        assert_eq!(
            iter.collect().as_bstr(),
            "𐐜 𐐼𐐯𐑅𐐨𐑉𐐯𐐻 𐑁𐐲𐑉𐑅𐐻/𐑅𐐯𐐿𐐲𐑌𐐼 𐐺𐐳𐐿 𐐺𐐴 𐑄 𐑉𐐨𐐾𐐯𐑌𐐻𐑅 𐐱𐑂 𐑄 𐐼𐐯𐑅𐐨𐑉𐐯𐐻 𐐷𐐮𐐭𐑌𐐮𐑂𐐲𐑉𐑅𐐮𐐻𐐮"
                .as_bytes()
                .as_bstr()
        );

        let s = "ZȺȾ".as_bytes();
        let iter = FullTitlecase::from(s);
        assert_eq!(
            iter.collect().as_bstr(),
            "Zⱥⱦ".as_bytes().as_bstr()
        );
    }
    {
        let s = "ß".as_bytes();
        let iter = FullUppercase::from(s);
        assert_eq!(
            iter.collect().as_bstr(),
            "SS".as_bytes().as_bstr()
        );

        let s = "Αύριο".as_bytes();
        let iter = FullUppercase::from(s);
        assert_eq!(
            iter.collect().as_bstr(),
            "ΑΎΡΙΟ".as_bytes().as_bstr()
        );

        let s = "Έτος".as_bytes();
        let iter = FullUppercase::from(s);
        assert_eq!(
            iter.collect().as_bstr(),
            "ΈΤΟΣ".as_bytes().as_bstr()
        );

        let s = "𐑄 𐐼𐐯𐑅𐐨𐑉𐐯𐐻 𐑁𐐲𐑉𐑅𐐻/𐑅𐐯𐐿𐐲𐑌𐐼 𐐺𐐳𐐿 𐐺𐐴 𐑄 𐑉𐐨𐐾𐐯𐑌𐐻𐑅 𐐱𐑂 𐑄 𐐼𐐯𐑅𐐨𐑉𐐯𐐻 𐐷𐐮𐐭𐑌𐐮𐑂𐐲𐑉𐑅𐐮𐐻𐐮".as_bytes();
        let iter = FullUppercase::from(s);
        assert_eq!(
            iter.collect().as_bstr(),
            "𐐜 𐐔𐐇𐐝𐐀𐐡𐐇𐐓 𐐙𐐊𐐡𐐝𐐓/𐐝𐐇𐐗𐐊𐐤𐐔 𐐒𐐋𐐗 𐐒𐐌 𐐜 𐐡𐐀𐐖𐐇𐐤𐐓𐐝 𐐉𐐚 𐐜 𐐔𐐇𐐝𐐀𐐡𐐇𐐓 𐐏𐐆𐐅𐐤𐐆𐐚𐐊𐐡𐐝𐐆𐐓𐐆"
                .as_bytes()
                .as_bstr()
        );

        let s = "zⱥⱦ".as_bytes();
        let iter = FullUppercase::from(s);
        assert_eq!(
            iter.collect().as_bstr(),
            "ZȺȾ".as_bytes().as_bstr()
        );
    }
}

#[test]
fn full_invalid_utf8() {
    {
        let iter = FullLowercase::from(&b"\xFF\xFE"[..]);
        assert_eq!(iter.collect().as_bstr(), b"\xFF\xFE".as_bstr());

        let iter = FullLowercase::from(&b"ABC\xFF\xFEXYZ"[..]);
        assert_eq!(
            iter.collect().as_bstr(),
            b"abc\xFF\xFExyz".as_bstr()
        );

        let iter = FullLowercase::from(&b"abc\xFF\xFEXYZ"[..]);
        assert_eq!(
            iter.collect().as_bstr(),
            b"abc\xFF\xFExyz".as_bstr()
        );

        let iter = FullLowercase::from(&b"aB\xF0\x9F\x87Yz"[..]);
        assert_eq!(
            iter.collect().as_bstr(),
            b"ab\xF0\x9F\x87yz".as_bstr()
        );
    }
    {
        let iter = FullTitlecase::from(&b"\xFF\xFE"[..]);
        assert_eq!(iter.collect().as_bstr(), b"\xFF\xFE".as_bstr());

        let iter = FullTitlecase::from(&b"ABC\xFF\xFEXYZ"[..]);
        assert_eq!(
            iter.collect().as_bstr(),
            b"Abc\xFF\xFExyz".as_bstr()
        );

        let iter = FullTitlecase::from(&b"abc\xFF\xFEXYZ"[..]);
        assert_eq!(
            iter.collect().as_bstr(),
            b"Abc\xFF\xFExyz".as_bstr()
        );

        let iter = FullTitlecase::from(&b"aB\xF0\x9F\x87Yz"[..]);
        assert_eq!(
            iter.collect().as_bstr(),
            b"Ab\xF0\x9F\x87yz".as_bstr()
        );
    }
    {
        let iter = FullUppercase::from(&b"\xFF\xFE"[..]);
        assert_eq!(iter.collect().as_bstr(), b"\xFF\xFE".as_bstr());

        let iter = FullUppercase::from(&b"abc\xFF\xFExyz"[..]);
        assert_eq!(
            iter.collect().as_bstr(),
            b"ABC\xFF\xFEXYZ".as_bstr()
        );

        let iter = FullUppercase::from(&b"abc\xFF\xFEXYZ"[..]);
        assert_eq!(
            iter.collect().as_bstr(),
            b"ABC\xFF\xFEXYZ".as_bstr()
        );

        let iter = FullUppercase::from(&b"aB\xF0\x9F\x87Yz"[..]);
        assert_eq!(
            iter.collect().as_bstr(),
            b"AB\xF0\x9F\x87YZ".as_bstr()
        );
    }
}

#[test]
fn full_unicode_replacement_character() {
    {
        let s = "�".as_bytes();
        let iter = FullLowercase::from(s);
        assert_eq!(iter.collect().as_bstr(), "�".as_bytes().as_bstr());
    }
    {
        let s = "�".as_bytes();
        let iter = FullTitlecase::from(s);
        assert_eq!(iter.collect().as_bstr(), "�".as_bytes().as_bstr());
    }
    {
        let s = "�".as_bytes();
        let iter = FullUppercase::from(s);
        assert_eq!(iter.collect().as_bstr(), "�".as_bytes().as_bstr());
    }
}

#[test]
fn full_dz_titlecase() {
    {
        let s = "ǅ".as_bytes();
        let iter = FullLowercase::from(s);
        assert_eq!(iter.collect().as_bstr(), "ǆ".as_bytes().as_bstr());
    }
    {
        let s = "ǅ".as_bytes();
        let iter = FullTitlecase::from(s);
        assert_eq!(iter.collect().as_bstr(), "ǅ".as_bytes().as_bstr());
    }
    {
        let s = "ǅ".as_bytes();
        let iter = FullUppercase::from(s);
        assert_eq!(iter.collect().as_bstr(), "Ǆ".as_bytes().as_bstr());
    }
}

#[test]
fn full_latin_capital_i_with_dot_above() {
    {
        let s = "İ".as_bytes();
        let iter = FullLowercase::from(s);
        assert_eq!(
            iter.collect().as_bstr(),
            [105_u8, 204, 135].as_bstr()
        );
    }
    {
        let s = "İ".as_bytes();
        let iter = FullTitlecase::from(s);
        assert_eq!(iter.collect().as_bstr(), "İ");
    }
}

#[test]
fn full_case_map_to_two_chars() {
    {
        let s = "İ".as_bytes();
        let iter = FullLowercase::from(s);
        assert_eq!(
            iter.collect().as_bstr(),
            "i\u{307}".as_bytes().as_bstr()
        );
    }
    {
        let s = "և".as_bytes();
        let iter = FullTitlecase::from(s);
        assert_eq!(
            iter.collect().as_bstr(),
            "Եւ".as_bytes().as_bstr()
        );

        let s = "ẙ".as_bytes();
        let iter = FullTitlecase::from(s);
        assert_eq!(
            iter.collect().as_bstr(),
            "Y\u{30a}".as_bytes().as_bstr()
        );

        let s = "ᾂ".as_bytes();
        let iter = FullTitlecase::from(s);
        assert_eq!(iter.collect().as_bstr(), "ᾊ".as_bytes().as_bstr());

        let s = "ﬗ".as_bytes();
        let iter = FullTitlecase::from(s);
        assert_eq!(
            iter.collect().as_bstr(),
            "Մխ".as_bytes().as_bstr()
        );
    }
    {
        let s = "և".as_bytes();
        let iter = FullUppercase::from(s);
        assert_eq!(
            iter.collect().as_bstr(),
            "ԵՒ".as_bytes().as_bstr()
        );

        let s = "ẙ".as_bytes();
        let iter = FullUppercase::from(s);
        assert_eq!(
            iter.collect().as_bstr(),
            "Y\u{30a}".as_bytes().as_bstr()
        );

        let s = "ᾂ".as_bytes();
        let iter = FullUppercase::from(s);
        assert_eq!(
            iter.collect().as_bstr(),
            "ἊΙ".as_bytes().as_bstr()
        );

        let s = "ﬗ".as_bytes();
        let iter = FullUppercase::from(s);
        assert_eq!(
            iter.collect().as_bstr(),
            "ՄԽ".as_bytes().as_bstr()
        );
    }
}

#[test]
fn full_case_map_to_three_chars() {
    {
        for ch in '\0'..char::MAX {
            assert!(
                ch.to_lowercase().count() < 3,
                "Expected no characters that downcase to three or more characters, found: '{}', which expands to: {:?}",
                ch,
                ch.to_lowercase().collect::<Vec<_>>()
            );
        }
    }
    {
        let s = "ﬃ".as_bytes();
        let iter = FullTitlecase::from(s);
        assert_eq!(iter.collect().as_bstr(), b"Ffi".as_bstr());

        let s = "ὖ".as_bytes();
        let iter = FullTitlecase::from(s);
        assert_eq!(
            iter.collect().as_bstr(),
            "Υ\u{313}\u{342}".as_bytes().as_bstr()
        );

        let s = "ῷ".as_bytes();
        let iter = FullTitlecase::from(s);
        assert_eq!(
            iter.collect().as_bstr(),
            "Ω\u{342}\u{345}".as_bytes().as_bstr()
        );
    }
    {
        let s = "ﬃ".as_bytes();
        let iter = FullUppercase::from(s);
        assert_eq!(iter.collect().as_bstr(), b"FFI".as_bstr());

        let s = "ὖ".as_bytes();
        let iter = FullUppercase::from(s);
        assert_eq!(
            iter.collect().as_bstr(),
            "Υ\u{313}\u{342}".as_bytes().as_bstr()
        );

        let s = "ῷ".as_bytes();
        let iter = FullUppercase::from(s);
        assert_eq!(
            iter.collect().as_bstr(),
            "Ω\u{342}Ι".as_bytes().as_bstr()
        );
    }
}

#[test]
fn full_size_hint() {
    {
        assert_eq!(FullLowercase::with_slice(b"").size_hint(), (0, Some(0)));
        assert_eq!(FullLowercase::with_slice(b"abc, xyz").size_hint(), (8, Some(8)));
        assert_eq!(
            FullLowercase::with_slice(b"abc, \xFF\xFE, xyz").size_hint(),
            (12, Some(144))
        );
        assert_eq!(
            FullLowercase::with_slice("�".as_bytes()).size_hint(),
            (3, Some(36))
        );
        assert_eq!(
            FullLowercase::with_slice("Έτος".as_bytes()).size_hint(),
            (8, Some(96))
        );
        assert_eq!(
            FullLowercase::with_slice("ZȺȾ".as_bytes()).size_hint(),
            (5, Some(60))
        );

        let mut utf8_with_invalid_bytes = b"\xFF\xFE".to_vec();
        utf8_with_invalid_bytes.extend_from_slice("Έτος".as_bytes());
        assert_eq!(
            FullLowercase::with_slice(&utf8_with_invalid_bytes).size_hint(),
            (10, Some(120))
        );
    }
    {
        assert_eq!(FullTitlecase::with_slice(b"").size_hint(), (0, Some(0)));
        assert_eq!(FullTitlecase::with_slice(b"abc, xyz").size_hint(), (8, Some(8)));
        assert_eq!(
            FullTitlecase::with_slice(b"abc, \xFF\xFE, xyz").size_hint(),
            (12, Some(144))
        );
        assert_eq!(
            FullTitlecase::with_slice("�".as_bytes()).size_hint(),
            (3, Some(36))
        );
        assert_eq!(
            FullTitlecase::with_slice("Έτος".as_bytes()).size_hint(),
            (8, Some(96))
        );
        assert_eq!(
            FullTitlecase::with_slice("ZȺȾ".as_bytes()).size_hint(),
            (5, Some(60))
        );

        let mut utf8_with_invalid_bytes = b"\xFF\xFE".to_vec();
        utf8_with_invalid_bytes.extend_from_slice("Έτος".as_bytes());
        assert_eq!(
            FullTitlecase::with_slice(&utf8_with_invalid_bytes).size_hint(),
            (10, Some(120))
        );
    }
    {
        assert_eq!(FullUppercase::with_slice(b"").size_hint(), (0, Some(0)));
        assert_eq!(FullUppercase::with_slice(b"abc, xyz").size_hint(), (8, Some(8)));
        assert_eq!(
            FullUppercase::with_slice(b"abc, \xFF\xFE, xyz").size_hint(),
            (12, Some(144))
        );
        assert_eq!(
            FullUppercase::with_slice("�".as_bytes()).size_hint(),
            (3, Some(36))
        );
        assert_eq!(
            FullUppercase::with_slice("Έτος".as_bytes()).size_hint(),
            (8, Some(96))
        );
        assert_eq!(
            FullUppercase::with_slice("ZȺȾ".as_bytes()).size_hint(),
            (5, Some(60))
        );

        let mut utf8_with_invalid_bytes = b"\xFF\xFE".to_vec();
        utf8_with_invalid_bytes.extend_from_slice("Έτος".as_bytes());
        assert_eq!(
            FullUppercase::with_slice(&utf8_with_invalid_bytes).size_hint(),
            (10, Some(120))
        );
    }
}

#[test]
fn full_count() {
    {
        assert_eq!(FullLowercase::with_slice(b"").count(), 0);
        assert_eq!(FullLowercase::with_slice(b"abc, xyz").count(), 8);
        assert_eq!(FullLowercase::with_slice(b"abc, \xFF\xFE, xyz").count(), 12);
        assert_eq!(FullLowercase::with_slice("�".as_bytes()).count(), 3);
        assert_eq!(FullLowercase::with_slice("Έτος".as_bytes()).count(), 8);
        assert_eq!(FullLowercase::with_slice("ZȺȾ".as_bytes()).count(), 7);

        let mut utf8_with_invalid_bytes = b"\xFF\xFE".to_vec();
        utf8_with_invalid_bytes.extend_from_slice("Έτος".as_bytes());
        assert_eq!(FullLowercase::with_slice(&utf8_with_invalid_bytes).count(), 10);
    }
    {
        assert_eq!(FullTitlecase::with_slice(b"").count(), 0);
        assert_eq!(FullTitlecase::with_slice(b"abc, xyz").count(), 8);
        assert_eq!(FullTitlecase::with_slice(b"abc, \xFF\xFE, xyz").count(), 12);
        assert_eq!(FullTitlecase::with_slice("�".as_bytes()).count(), 3);
        assert_eq!(FullTitlecase::with_slice("Έτος".as_bytes()).count(), 8);
        assert_eq!(FullTitlecase::with_slice("ZȺȾ".as_bytes()).count(), 7);

        let mut utf8_with_invalid_bytes = b"\xFF\xFE".to_vec();
        utf8_with_invalid_bytes.extend_from_slice("Έτος".as_bytes());
        assert_eq!(FullTitlecase::with_slice(&utf8_with_invalid_bytes).count(), 10);
    }
    {
        assert_eq!(FullUppercase::with_slice(b"").count(), 0);
        assert_eq!(FullUppercase::with_slice(b"abc, xyz").count(), 8);
        assert_eq!(FullUppercase::with_slice(b"abc, \xFF\xFE, xyz").count(), 12);
        assert_eq!(FullUppercase::with_slice("�".as_bytes()).count(), 3);
        assert_eq!(FullUppercase::with_slice("Έτος".as_bytes()).count(), 8);
        assert_eq!(FullUppercase::with_slice("zⱥⱦ".as_bytes()).count(), 5);

        let mut utf8_with_invalid_bytes = b"\xFF\xFE".to_vec();
        utf8_with_invalid_bytes.extend_from_slice("Έτος".as_bytes());
        assert_eq!(FullUppercase::with_slice(&utf8_with_invalid_bytes).count(), 10);
    }
}

#[test]
fn full_size_hint_covers_count() {
    {
        let iter = FullLowercase::with_slice(b"");
        let (min, max) = iter.size_hint();
        let count = iter.count();
        assert!(min <= count);
        assert!(count <= max.unwrap());

        let iter = FullLowercase::with_slice(b"abc, xyz");
        let (min, max) = iter.size_hint();
        let count = iter.count();
        assert!(min <= count);
        assert!(count <= max.unwrap());

        let iter = FullLowercase::with_slice(b"abc, \xFF\xFE, xyz");
        let (min, max) = iter.size_hint();
        let count = iter.count();
        assert!(min <= count);
        assert!(count <= max.unwrap());

        let iter = FullLowercase::with_slice("�".as_bytes());
        let (min, max) = iter.size_hint();
        let count = iter.count();
        assert!(min <= count);
        assert!(count <= max.unwrap());

        let iter = FullLowercase::with_slice("Έτος".as_bytes());
        let (min, max) = iter.size_hint();
        let count = iter.count();
        assert!(min <= count);
        assert!(count <= max.unwrap());

        let iter = FullLowercase::with_slice("ZȺȾ".as_bytes());
        let (min, max) = iter.size_hint();
        let count = iter.count();
        assert!(min <= count);
        assert!(count <= max.unwrap());

        let mut utf8_with_invalid_bytes = b"\xFF\xFE".to_vec();
        utf8_with_invalid_bytes.extend_from_slice("Έτος".as_bytes());
        let iter = FullLowercase::with_slice(&utf8_with_invalid_bytes);
        let (min, max) = iter.size_hint();
        let count = iter.count();
        assert!(min <= count);
        assert!(count <= max.unwrap());
    }
    {
        let iter = FullTitlecase::with_slice(b"");
        let (min, max) = iter.size_hint();
        let count = iter.count();
        assert!(min <= count);
        assert!(count <= max.unwrap());

        let iter = FullTitlecase::with_slice(b"abc, xyz");
        let (min, max) = iter.size_hint();
        let count = iter.count();
        assert!(min <= count);
        assert!(count <= max.unwrap());

        let iter = FullTitlecase::with_slice(b"abc, \xFF\xFE, xyz");
        let (min, max) = iter.size_hint();
        let count = iter.count();
        assert!(min <= count);
        assert!(count <= max.unwrap());

        let iter = FullTitlecase::with_slice("�".as_bytes());
        let (min, max) = iter.size_hint();
        let count = iter.count();
        assert!(min <= count);
        assert!(count <= max.unwrap());

        let iter = FullTitlecase::with_slice("Έτος".as_bytes());
        let (min, max) = iter.size_hint();
        let count = iter.count();
        assert!(min <= count);
        assert!(count <= max.unwrap());

        let iter = FullTitlecase::with_slice("ZȺȾ".as_bytes());
        let (min, max) = iter.size_hint();
        let count = iter.count();
        assert!(min <= count);
        assert!(count <= max.unwrap());

        let mut utf8_with_invalid_bytes = b"\xFF\xFE".to_vec();
        utf8_with_invalid_bytes.extend_from_slice("Έτος".as_bytes());
        let iter = FullTitlecase::with_slice(&utf8_with_invalid_bytes);
        let (min, max) = iter.size_hint();
        let count = iter.count();
        assert!(min <= count);
        assert!(count <= max.unwrap());
    }
    {
        let iter = FullUppercase::with_slice(b"");
        let (min, max) = iter.size_hint();
        let count = iter.count();
        assert!(min <= count);
        assert!(count <= max.unwrap());

        let iter = FullUppercase::with_slice(b"abc, xyz");
        let (min, max) = iter.size_hint();
        let count = iter.count();
        assert!(min <= count);
        assert!(count <= max.unwrap());

        let iter = FullUppercase::with_slice(b"abc, \xFF\xFE, xyz");
        let (min, max) = iter.size_hint();
        let count = iter.count();
        assert!(min <= count);
        assert!(count <= max.unwrap());

        let iter = FullUppercase::with_slice("�".as_bytes());
        let (min, max) = iter.size_hint();
        let count = iter.count();
        assert!(min <= count);
        assert!(count <= max.unwrap());

        let iter = FullUppercase::with_slice("Έτος".as_bytes());
        let (min, max) = iter.size_hint();
        let count = iter.count();
        assert!(min <= count);
        assert!(count <= max.unwrap());

        let iter = FullUppercase::with_slice("ZȺȾ".as_bytes());
        let (min, max) = iter.size_hint();
        let count = iter.count();
        assert!(min <= count);
        assert!(count <= max.unwrap());

        let mut utf8_with_invalid_bytes = b"\xFF\xFE".to_vec();
        utf8_with_invalid_bytes.extend_from_slice("Έτος".as_bytes());
        let iter = FullUppercase::with_slice(&utf8_with_invalid_bytes);
        let (min, max) = iter.size_hint();
        let count = iter.count();
        assert!(min <= count);
        assert!(count <= max.unwrap());
    }
}

#[test]
fn titlecase_empty() {
    let iter = Titlecase::new();
    assert_eq!(iter.collect().as_bstr(), b"".as_bstr());

    let iter = Titlecase::with_slice(b"");
    assert_eq!(iter.collect().as_bstr(), b"".as_bstr());

    let iter = Titlecase::with_ascii_slice(b"");
    assert_eq!(iter.collect().as_bstr(), b"".as_bstr());
}

#[test]
fn titlecase_size_hint() {
    assert_eq!(Titlecase::new().size_hint(), (0, Some(0)));

    assert_eq!(Titlecase::with_slice(b"abc, xyz").size_hint(), (8, Some(8)));
    assert_eq!(
        Titlecase::with_slice(b"abc, \xFF\xFE, xyz").size_hint(),
        (12, Some(144))
    );
    assert_eq!(
        Titlecase::with_slice("�".as_bytes()).size_hint(),
        (3, Some(36))
    );
    assert_eq!(
        Titlecase::with_slice("Έτος".as_bytes()).size_hint(),
        (8, Some(96))
    );
    assert_eq!(
        Titlecase::with_slice("ZȺȾ".as_bytes()).size_hint(),
        (5, Some(60))
    );

    let mut utf8_with_invalid_bytes = b"\xFF\xFE".to_vec();
    utf8_with_invalid_bytes.extend_from_slice("Έτος".as_bytes());
    assert_eq!(
        Titlecase::with_slice(&utf8_with_invalid_bytes).size_hint(),
        (10, Some(120))
    );

    assert_eq!(
        Titlecase::with_ascii_slice(b"abc, xyz").size_hint(),
        (8, Some(8))
    );
    assert_eq!(
        Titlecase::with_ascii_slice(b"abc, \xFF\xFE, xyz").size_hint(),
        (12, Some(12))
    );
    assert_eq!(
        Titlecase::with_ascii_slice("�".as_bytes()).size_hint(),
        (3, Some(3))
    );
    assert_eq!(
        Titlecase::with_ascii_slice("Έτος".as_bytes()).size_hint(),
        (8, Some(8))
    );
    assert_eq!(
        Titlecase::with_ascii_slice("ZȺȾ".as_bytes()).size_hint(),
        (5, Some(5))
    );

    let mut utf8_with_invalid_bytes = b"\xFF\xFE".to_vec();
    utf8_with_invalid_bytes.extend_from_slice("Έτος".as_bytes());
    assert_eq!(
        Titlecase::with_ascii_slice(&utf8_with_invalid_bytes).size_hint(),
        (10, Some(10))
    );
}

#[test]
fn titlecase_count() {
    assert_eq!(Titlecase::new().count(), 0);

    assert_eq!(Titlecase::with_slice(b"abc, xyz").count(), 8);
    assert_eq!(Titlecase::with_slice(b"abc, \xFF\xFE, xyz").count(), 12);
    assert_eq!(Titlecase::with_slice("�".as_bytes()).count(), 3);
    assert_eq!(Titlecase::with_slice("Έτος".as_bytes()).count(), 8);
    assert_eq!(Titlecase::with_slice("ZȺȾ".as_bytes()).count(), 7);

    let mut utf8_with_invalid_bytes = b"\xFF\xFE".to_vec();
    utf8_with_invalid_bytes.extend_from_slice("Έτος".as_bytes());
    assert_eq!(Titlecase::with_slice(&utf8_with_invalid_bytes).count(), 10);

    assert_eq!(Titlecase::with_ascii_slice(b"abc, xyz").count(), 8);
    assert_eq!(
        Titlecase::with_ascii_slice(b"abc, \xFF\xFE, xyz").count(),
        12
    );
    assert_eq!(Titlecase::with_ascii_slice("�".as_bytes()).count(), 3);
    assert_eq!(Titlecase::with_ascii_slice("Έτος".as_bytes()).count(), 8);
    assert_eq!(Titlecase::with_ascii_slice("ZȺȾ".as_bytes()).count(), 5);

    let mut utf8_with_invalid_bytes = b"\xFF\xFE".to_vec();
    utf8_with_invalid_bytes.extend_from_slice("Έτος".as_bytes());
    assert_eq!(
        Titlecase::with_ascii_slice(&utf8_with_invalid_bytes).count(),
        10
    );
}

#[test]
fn titlecase_size_hint_covers_count() {
    let iter = Titlecase::new();
    let (min, max) = iter.size_hint();
    let count = iter.count();
    assert!(min <= count);
    assert!(count <= max.unwrap());
}

#[test]
fn double_ended_iterator() {
    let mut iter = AsciiTitlecase::with_slice(b"abc");
    assert_eq!(iter.next_back(), Some(b'c'));
    assert_eq!(iter.next_back(), Some(b'b'));
    assert_eq!(iter.next_back(), Some(b'A'));

    let mut iter = AsciiTitlecase::with_slice(b"abc");
    assert_eq!(iter.next(), Some(b'A'));
    assert_eq!(iter.next_back(), Some(b'c'));
    assert_eq!(iter.next_back(), Some(b'B'));
}

#[test]
fn uppercase_empty() {
    let iter = Uppercase::from(&b""[..]);
    assert_eq!(iter.collect().as_bstr(), b"".as_bstr());
}

#[test]
fn uppercase_ascii() {
    let iter = Uppercase::from(&b"abc"[..]);
    assert_eq!(iter.collect().as_bstr(), b"ABC".as_bstr());

    let iter = Uppercase::from(&b"aBC"[..]);
    assert_eq!(iter.collect().as_bstr(), b"ABC".as_bstr());

    let iter = Uppercase::from(&b"ABC"[..]);
    assert_eq!(iter.collect().as_bstr(), b"ABC".as_bstr());

    let iter = Uppercase::from(&b"aBC, 123, ABC, baby you and me girl"[..]);
    assert_eq!(
        iter.collect().as_bstr(),
        b"ABC, 123, ABC, BABY YOU AND ME GIRL".as_bstr()
    );
}

#[test]
fn uppercase_utf8() {
    let s = "ß".as_bytes();
    let iter = Uppercase::from(s);
    assert_eq!(
        iter.collect().as_bstr(),
        "SS".as_bytes().as_bstr()
    );

    let s = "Αύριο".as_bytes();
    let iter = Uppercase::from(s);
    assert_eq!(
        iter.collect().as_bstr(),
        "ΑΎΡΙΟ".as_bytes().as_bstr()
    );

    let s = "Έτος".as_bytes();
    let iter = Uppercase::from(s);
    assert_eq!(
        iter.collect().as_bstr(),
        "ΈΤΟΣ".as_bytes().as_bstr()
    );

    let s = "𐑄 𐐼𐐯𐑅𐐨𐑉𐐯𐐻 𐑁𐐲𐑉𐑅𐐻/𐑅𐐯𐐿𐐲𐑌𐐼 𐐺𐐳𐐿 𐐺𐐴 𐑄 𐑉𐐨𐐾𐐯𐑌𐐻𐑅 𐐱𐑂 𐑄 𐐼𐐯𐑅𐐨𐑉𐐯𐐻 𐐷𐐮𐐭𐑌𐐮𐑂𐐲𐑉𐑅𐐮𐐻𐐮".as_bytes();
    let iter = Uppercase::from(s);
    assert_eq!(
        iter.collect().as_bstr(),
        "𐐜 𐐔𐐇𐐝𐐀𐐡𐐇𐐓 𐐙𐐊𐐡𐐝𐐓/𐐝𐐇𐐗𐐊𐐤𐐔 𐐒𐐋𐐗 𐐒𐐌 𐐜 𐐡𐐀𐐖𐐇𐐤𐐓𐐝 𐐉𐐚 𐐜 𐐔𐐇𐐝𐐀𐐡𐐇𐐓 𐐏𐐆𐐅𐐤𐐆𐐚𐐊𐐡𐐝𐐆𐐓𐐆"
            .as_bytes()
            .as_bstr()
    );

    let s = "zⱥⱦ".as_bytes();
    let iter = Uppercase::from(s);
    assert_eq!(
        iter.collect().as_bstr(),
        "ZȺȾ".as_bytes().as_bstr()
    );
}

#[test]
fn uppercase_invalid_utf8() {
    let iter = Uppercase::from(&b"\xFF\xFE"[..]);
    assert_eq!(iter.collect().as_bstr(), b"\xFF\xFE".as_bstr());

    let iter = Uppercase::from(&b"abc\xFF\xFExyz"[..]);
    assert_eq!(
        iter.collect().as_bstr(),
        b"ABC\xFF\xFEXYZ".as_bstr()
    );

    let iter = Uppercase::from(&b"abc\xFF\xFEXYZ"[..]);
    assert_eq!(
        iter.collect().as_bstr(),
        b"ABC\xFF\xFEXYZ".as_bstr()
    );

    let iter = Uppercase::from(&b"aB\xF0\x9F\x87Yz"[..]);
    assert_eq!(
        iter.collect().as_bstr(),
        b"AB\xF0\x9F\x87YZ".as_bstr()
    );
}

#[test]
fn uppercase_unicode_replacement_character() {
    let s = "�".as_bytes();
    let iter = Uppercase::from(s);
    assert_eq!(iter.collect().as_bstr(), "�".as_bytes().as_bstr());
}

#[test]
fn uppercase_dz_titlecase() {
    let s = "ǅ".as_bytes();
    let iter = Uppercase::from(s);
    assert_eq!(iter.collect().as_bstr(), "Ǆ".as_bytes().as_bstr());
}

#[test]
fn uppercase_latin_small_i_with_dot_above() {
    let s = "i̇".as_bytes();
    let iter = Uppercase::from(s);
    assert_eq!(
        iter.collect().as_bstr(),
        [73_u8, 204, 135].as_bstr()
    );
}

#[test]
fn uppercase_case_map_to_two_chars() {
    let s = "և".as_bytes();
    let iter = Uppercase::from(s);
    assert_eq!(
        iter.collect().as_bstr(),
        "ԵՒ".as_bytes().as_bstr()
    );

    let s = "ẙ".as_bytes();
    let iter = Uppercase::from(s);
    assert_eq!(
        iter.collect().as_bstr(),
        "Y\u{30a}".as_bytes().as_bstr()
    );

    let s = "ᾂ".as_bytes();
    let iter = Uppercase::from(s);
    assert_eq!(
        iter.collect().as_bstr(),
        "ἊΙ".as_bytes().as_bstr()
    );

    let s = "ﬗ".as_bytes();
    let iter = Uppercase::from(s);
    assert_eq!(
        iter.collect().as_bstr(),
        "ՄԽ".as_bytes().as_bstr()
    );
}

#[test]
fn uppercase_case_map_to_three_chars() {
    let s = "ﬃ".as_bytes();
    let iter = Uppercase::from(s);
    assert_eq!(iter.collect().as_bstr(), b"FFI".as_bstr());

    let s = "ὖ".as_bytes();
    let iter = Uppercase::from(s);
    assert_eq!(
        iter.collect().as_bstr(),
        "Υ\u{313}\u{342}".as_bytes().as_bstr()
    );

    let s = "ῷ".as_bytes();
    let iter = Uppercase::from(s);
    assert_eq!(
        iter.collect().as_bstr(),
        "Ω\u{342}Ι".as_bytes().as_bstr()
    );
}

#[test]
fn full_latin_small_i_with_dot_above() {
    let s = "i̇".as_bytes();
    let iter = FullUppercase::from(s);
    assert_eq!(
        iter.collect().as_bstr(),
        [73_u8, 204, 135].as_bstr()
    );
}

#[test]
fn mod_empty() {
    let iter = Uppercase::new();
    assert_eq!(iter.collect().as_bstr(), b"".as_bstr());

    let iter = Uppercase::with_slice(b"");
    assert_eq!(iter.collect().as_bstr(), b"".as_bstr());

    let iter = Uppercase::with_ascii_slice(b"");
    assert_eq!(iter.collect().as_bstr(), b"".as_bstr());
}

#[test]
fn mod_size_hint() {
    assert_eq!(Uppercase::new().size_hint(), (0, Some(0)));

    assert_eq!(Uppercase::with_slice(b"abc, xyz").size_hint(), (8, Some(8)));
    assert_eq!(
        Uppercase::with_slice(b"abc, \xFF\xFE, xyz").size_hint(),
        (12, Some(144))
    );
    assert_eq!(
        Uppercase::with_slice("�".as_bytes()).size_hint(),
        (3, Some(36))
    );
    assert_eq!(
        Uppercase::with_slice("Έτος".as_bytes()).size_hint(),
        (8, Some(96))
    );
    assert_eq!(
        Uppercase::with_slice("ZȺȾ".as_bytes()).size_hint(),
        (5, Some(60))
    );

    let mut utf8_with_invalid_bytes = b"\xFF\xFE".to_vec();
    utf8_with_invalid_bytes.extend_from_slice("Έτος".as_bytes());
    assert_eq!(
        Uppercase::with_slice(&utf8_with_invalid_bytes).size_hint(),
        (10, Some(120))
    );

    assert_eq!(
        Uppercase::with_ascii_slice(b"abc, xyz").size_hint(),
        (8, Some(8))
    );
    assert_eq!(
        Uppercase::with_ascii_slice(b"abc, \xFF\xFE, xyz").size_hint(),
        (12, Some(12))
    );
    assert_eq!(
        Uppercase::with_ascii_slice("�".as_bytes()).size_hint(),
        (3, Some(3))
    );
    assert_eq!(
        Uppercase::with_ascii_slice("Έτος".as_bytes()).size_hint(),
        (8, Some(8))
    );
    assert_eq!(
        Uppercase::with_ascii_slice("ZȺȾ".as_bytes()).size_hint(),
        (5, Some(5))
    );

    let mut utf8_with_invalid_bytes = b"\xFF\xFE".to_vec();
    utf8_with_invalid_bytes.extend_from_slice("Έτος".as_bytes());
    assert_eq!(
        Uppercase::with_ascii_slice(&utf8_with_invalid_bytes).size_hint(),
        (10, Some(10))
    );
}

#[test]
fn mod_count() {
    assert_eq!(Uppercase::new().count(), 0);

    assert_eq!(Uppercase::with_slice(b"abc, xyz").count(), 8);
    assert_eq!(Uppercase::with_slice(b"abc, \xFF\xFE, xyz").count(), 12);
    assert_eq!(Uppercase::with_slice("�".as_bytes()).count(), 3);
    assert_eq!(Uppercase::with_slice("Έτος".as_bytes()).count(), 8);
    assert_eq!(Uppercase::with_slice("zⱥⱦ".as_bytes()).count(), 5);

    let mut utf8_with_invalid_bytes = b"\xFF\xFE".to_vec();
    utf8_with_invalid_bytes.extend_from_slice("Έτος".as_bytes());
    assert_eq!(Uppercase::with_slice(&utf8_with_invalid_bytes).count(), 10);

    assert_eq!(Uppercase::with_ascii_slice(b"abc, xyz").count(), 8);
    assert_eq!(
        Uppercase::with_ascii_slice(b"abc, \xFF\xFE, xyz").count(),
        12
    );
    assert_eq!(Uppercase::with_ascii_slice("�".as_bytes()).count(), 3);
    assert_eq!(Uppercase::with_ascii_slice("Έτος".as_bytes()).count(), 8);
    assert_eq!(Uppercase::with_ascii_slice("ZȺȾ".as_bytes()).count(), 5);

    let mut utf8_with_invalid_bytes = b"\xFF\xFE".to_vec();
    utf8_with_invalid_bytes.extend_from_slice("Έτος".as_bytes());
    assert_eq!(
        Uppercase::with_ascii_slice(&utf8_with_invalid_bytes).count(),
        10
    );
}

#[test]
fn mod_size_hint_covers_count() {
    let iter = Uppercase::new();
    let (min, max) = iter.size_hint();
    let count = iter.count();
    assert!(min <= count);
    assert!(count <= max.unwrap());
}
