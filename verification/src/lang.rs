//! Interface language: English or Chinese, picked from the locale.

use vstd::prelude::*;

verus! {

/// Language of the tray texts.
#[derive(Debug, Clone, Copy, PartialEq, Eq, Structural)]
pub enum Lang {
    Zh,
    En,
}

/// A locale name selects Chinese when it starts with `zh`.
pub open spec fn is_chinese_locale(s: Seq<char>) -> bool {
    s.len() >= 2 && s[0] == 'z' && s[1] == 'h'
}

/// The language chosen from the `LANG` variable and, failing that, from the
/// culture name the system reports (where it reports one).
pub open spec fn detected(lang_var: Option<Seq<char>>, culture: Option<Seq<char>>) -> Lang {
    if lang_var is Some && is_chinese_locale(lang_var->0) {
        Lang::Zh
    } else if culture is Some && is_chinese_locale(culture->0) {
        Lang::Zh
    } else {
        Lang::En
    }
}

/// Whether a locale name starts with `zh`.
pub fn is_chinese(s: &str) -> (b: bool)
    ensures
        b == is_chinese_locale(s@),
{
    let n = s.unicode_len();
    if n < 2 {
        return false;
    }
    let c0 = s.get_char(0);
    let c1 = s.get_char(1);
    c0 == 'z' && c1 == 'h'
}

impl Lang {
    /// Decides the language from the value of `LANG` (if set) and the
    /// reported culture name (if any, already trimmed).
    pub fn detect_from(lang_var: Option<&str>, culture: Option<&str>) -> (l: Lang)
        ensures
            l == detected(
                match lang_var { Some(s) => Some(s@), None => None },
                match culture { Some(s) => Some(s@), None => None },
            ),
    {
        if let Some(s) = lang_var {
            if is_chinese(s) {
                return Lang::Zh;
            }
        }
        if let Some(s) = culture {
            if is_chinese(s) {
                return Lang::Zh;
            }
        }
        Lang::En
    }

    /// The text for this language out of an English and a Chinese one.
    pub fn pick(self, en: &'static str, zh: &'static str) -> (s: &'static str)
        ensures
            s == (match self {
                Lang::En => en,
                Lang::Zh => zh,
            }),
    {
        match self {
            Lang::En => en,
            Lang::Zh => zh,
        }
    }
}

} // verus!
