//! Static lookup from a symbolic key name to its bit index in the keyboard
//! register. The table is fixed: digits "0".."9" take indices 0..9, letters
//! "A".."Z" take 10..35, "F1".."F12" take 36..47, and a handful of named keys
//! take 48..59 (52 and 54 stay reserved). Absence is not an error: an
//! unknown name simply yields no index.

use vstd::prelude::*;
use vstd::string::*;
use crate::text::str_eq;

verus! {

/// The key table. First match of the chain wins; the categories are disjoint,
/// so the order only groups the cases.
pub open spec fn spec_lookup(name: Seq<char>) -> Option<u8> {
    if name.len() == 1 && 48 <= name[0] as u32 <= 57 {
        // digits "0".."9" -> 0..9
        Some((name[0] as u32 - 48) as u8)
    } else if name.len() == 1 && 65 <= name[0] as u32 <= 90 {
        // letters "A".."Z" -> 10..35
        Some(((name[0] as u32 - 65) + 10) as u8)
    } else if name.len() == 2 && name[0] == 'F' && 49 <= name[1] as u32 <= 57 {
        // "F1".."F9" -> 36..44
        Some((36 + (name[1] as u32 - 49)) as u8)
    } else if name.len() == 3 && name[0] == 'F' && name[1] == '1' && 48 <= name[2] as u32 <= 50 {
        // "F10".."F12" -> 45..47
        Some((45 + (name[2] as u32 - 48)) as u8)
    } else if name == "Escape"@ {
        Some(48u8)
    } else if name == "`"@ {
        Some(49u8)
    } else if name == "Space"@ {
        Some(50u8)
    } else if name == "Return"@ {
        Some(51u8)
    } else if name == "Left Alt"@ {
        Some(53u8)
    } else if name == "Left Ctrl"@ {
        Some(55u8)
    } else if name == "Left Shift"@ {
        Some(56u8)
    } else if name == "Backspace"@ {
        Some(57u8)
    } else if name == "Tab"@ {
        Some(58u8)
    } else if name == "CapsLock"@ {
        Some(59u8)
    } else {
        None
    }
}

/// Pure, total lookup: a mapped name yields its bit index, an unmapped name
/// yields nothing.
pub fn lookup(name: &str) -> (r: Option<u8>)
    ensures
        r == spec_lookup(name@),
{
    proof {
        reveal_strlit("Escape");
        reveal_strlit("`");
        reveal_strlit("Space");
        reveal_strlit("Return");
        reveal_strlit("Left Alt");
        reveal_strlit("Left Ctrl");
        reveal_strlit("Left Shift");
        reveal_strlit("Backspace");
        reveal_strlit("Tab");
        reveal_strlit("CapsLock");
    }
    let n = name.unicode_len();
    if n == 1 {
        let c = name.get_char(0);
        let u = c as u32;
        if 48 <= u && u <= 57 {
            return Some((u - 48) as u8);
        }
        if 65 <= u && u <= 90 {
            return Some((u - 65 + 10) as u8);
        }
        if c == '`' {
            proof {
                assert(name@ =~= "`"@);
            }
            return Some(49);
        }
        return None;
    }
    if n == 2 {
        let c0 = name.get_char(0);
        let c1 = name.get_char(1) as u32;
        if c0 == 'F' && 49 <= c1 && c1 <= 57 {
            return Some((36 + (c1 - 49)) as u8);
        }
        return None;
    }
    if n == 3 {
        let c0 = name.get_char(0);
        let c1 = name.get_char(1);
        let c2 = name.get_char(2) as u32;
        if c0 == 'F' && c1 == '1' && 48 <= c2 && c2 <= 50 {
            return Some((45 + (c2 - 48)) as u8);
        }
        if str_eq(name, "Tab") {
            return Some(58);
        }
        return None;
    }
    if str_eq(name, "Escape") {
        return Some(48);
    }
    if str_eq(name, "Space") {
        return Some(50);
    }
    if str_eq(name, "Return") {
        return Some(51);
    }
    if str_eq(name, "Left Alt") {
        return Some(53);
    }
    if str_eq(name, "Left Ctrl") {
        return Some(55);
    }
    if str_eq(name, "Left Shift") {
        return Some(56);
    }
    if str_eq(name, "Backspace") {
        return Some(57);
    }
    if str_eq(name, "CapsLock") {
        return Some(59);
    }
    None
}

/// Every mapped name gets an index between 0 and 59.
pub proof fn lemma_lookup_range(name: Seq<char>)
    requires
        spec_lookup(name) is Some,
    ensures
        spec_lookup(name).unwrap() <= 59,
{
}

/// No two mapped names share an index: the table is injective.
pub proof fn lemma_lookup_injective(a: Seq<char>, b: Seq<char>)
    requires
        spec_lookup(a) is Some,
        spec_lookup(a) == spec_lookup(b),
    ensures
        a == b,
{
    reveal_strlit("Escape");
    reveal_strlit("`");
    reveal_strlit("Space");
    reveal_strlit("Return");
    reveal_strlit("Left Alt");
    reveal_strlit("Left Ctrl");
    reveal_strlit("Left Shift");
    reveal_strlit("Backspace");
    reveal_strlit("Tab");
    reveal_strlit("CapsLock");
    let v = spec_lookup(a).unwrap();
    assert(spec_lookup(b) == Some(v));
    if a.len() == 1 && 48 <= a[0] as u32 <= 57 {
        assert(v as u32 <= 9);
        assert(b.len() == 1 && 48 <= b[0] as u32 <= 57);
        assert(a[0] as u32 == 48 + v as u32);
        assert(b[0] as u32 == 48 + v as u32);
        vstd::utf8::char_u32_cast(a[0], a[0] as u32);
        vstd::utf8::char_u32_cast(b[0], b[0] as u32);
        assert(a =~= b);
    } else if a.len() == 1 && 65 <= a[0] as u32 <= 90 {
        assert(10 <= v as u32 <= 35);
        assert(b.len() == 1 && 65 <= b[0] as u32 <= 90);
        assert(a[0] as u32 == 65 + (v as u32 - 10));
        assert(b[0] as u32 == 65 + (v as u32 - 10));
        vstd::utf8::char_u32_cast(a[0], a[0] as u32);
        vstd::utf8::char_u32_cast(b[0], b[0] as u32);
        assert(a =~= b);
    } else if a.len() == 2 && a[0] == 'F' && 49 <= a[1] as u32 <= 57 {
        assert(36 <= v as u32 <= 44);
        assert(b.len() == 2 && b[0] == 'F' && 49 <= b[1] as u32 <= 57);
        assert(a[1] as u32 == 49 + (v as u32 - 36));
        assert(b[1] as u32 == 49 + (v as u32 - 36));
        vstd::utf8::char_u32_cast(a[1], a[1] as u32);
        vstd::utf8::char_u32_cast(b[1], b[1] as u32);
        assert(a =~= b);
    } else if a.len() == 3 && a[0] == 'F' && a[1] == '1' && 48 <= a[2] as u32 <= 50 {
        assert(45 <= v as u32 <= 47);
        assert(b.len() == 3 && b[0] == 'F' && b[1] == '1' && 48 <= b[2] as u32 <= 50);
        assert(a[2] as u32 == 48 + (v as u32 - 45));
        assert(b[2] as u32 == 48 + (v as u32 - 45));
        vstd::utf8::char_u32_cast(a[2], a[2] as u32);
        vstd::utf8::char_u32_cast(b[2], b[2] as u32);
        assert(a =~= b);
    } else {
        assert(a == b);
    }
}

} // verus!
