use person::{leetify_char, leetify_string, repeat_last_char};
use person::text::{i32_to_string, u32_to_string};

#[test]
fn leet_table_is_exact() {
    let table = [
        ('a', '4'),
        ('b', '8'),
        ('c', 'C'),
        ('d', 'd'),
        ('e', '3'),
        ('f', 'F'),
        ('g', '6'),
        ('h', 'h'),
        ('j', 'J'),
        ('k', 'k'),
        ('l', '1'),
        ('m', 'm'),
        ('n', 'n'),
        ('o', '0'),
        ('p', 'p'),
        ('q', 'Q'),
        ('r', 'r'),
        ('s', '5'),
        ('t', '7'),
        ('u', 'u'),
        ('v', 'v'),
        ('w', 'w'),
        ('x', 'x'),
        ('y', 'Y'),
        ('z', '2'),
    ];
    for (c, s) in table {
        assert_eq!(leetify_char(c), s);
    }
}

#[test]
fn characters_without_a_table_entry_pass_through() {
    for c in ['i', 'A', 'B', 'Z', '0', '9', '-', '_', '.', ' '] {
        assert_eq!(leetify_char(c), c);
    }
}

#[test]
fn repeat_last_char_appends_duplicates() {
    assert_eq!(repeat_last_char("abc", 0), "abc");
    assert_eq!(repeat_last_char("abc", 1), "abcc");
    assert_eq!(repeat_last_char("a", 2), "aaa");
    assert_eq!(repeat_last_char("", 3), "");
}

#[test]
fn leetify_string_keeps_first_char_and_substitutes_after() {
    let mut rng = rand::thread_rng();
    let mut substituted = false;
    for _ in 0..1000 {
        let out = leetify_string(&mut rng, "aaaaaa");
        let chars: Vec<char> = out.chars().collect();
        assert_eq!(chars.len(), 6);
        assert_eq!(chars[0], 'a');
        for &c in &chars[1..] {
            assert!(c == 'a' || c == '4');
            if c == '4' {
                substituted = true;
            }
        }
    }
    assert!(substituted, "a quarter of 5000 draws should substitute");
}

#[test]
fn leetify_string_never_touches_unmapped_characters() {
    let mut rng = rand::thread_rng();
    for _ in 0..200 {
        assert_eq!(leetify_string(&mut rng, "AZIX_.-90"), "AZIX_.-90");
    }
    assert_eq!(leetify_string(&mut rng, ""), "");
}

#[test]
fn decimal_rendering_is_exact() {
    assert_eq!(u32_to_string(0), "0");
    assert_eq!(u32_to_string(9), "9");
    assert_eq!(u32_to_string(10), "10");
    assert_eq!(u32_to_string(12345), "12345");
    assert_eq!(u32_to_string(u32::MAX), "4294967295");
    assert_eq!(i32_to_string(0), "0");
    assert_eq!(i32_to_string(1987), "1987");
    assert_eq!(i32_to_string(-5), "-5");
    assert_eq!(i32_to_string(-262143), "-262143");
}
