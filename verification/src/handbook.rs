//! The shared vocabulary of the handbook: output categories, supported
//! languages, and one named command variant.

use vstd::prelude::*;
use vstd::string::*;

use crate::text::{ascii_lower, str_eq_fold};

verus! {

/// Every category an output entry can carry.  The first nine belong to
/// the first game's tables; the last three stand for the second game's
/// own kinds.
#[derive(Debug, Clone, Copy, PartialEq, Eq, Structural, Hash)]
pub enum Category {
    Characters,
    Materials,
    Weapons,
    Artifacts,
    Achievements,
    Quests,
    Dungeons,
    Scenes,
    Monsters,
    Items,
    LightCones,
    Relics,
}

impl Category {
    /// The display name of the category, as the output file spells it.
    pub fn name(&self) -> (r: String)
        ensures
            r@ == spec_category_name(*self),
    {
        match self {
            Category::Characters => String::from_str("Characters"),
            Category::Materials => String::from_str("Materials"),
            Category::Weapons => String::from_str("Weapons"),
            Category::Artifacts => String::from_str("Artifacts"),
            Category::Achievements => String::from_str("Achievements"),
            Category::Quests => String::from_str("Quests"),
            Category::Dungeons => String::from_str("Dungeons"),
            Category::Scenes => String::from_str("Scenes"),
            Category::Monsters => String::from_str("Monsters"),
            Category::Items => String::from_str("Items"),
            Category::LightCones => String::from_str("Light Cones"),
            Category::Relics => String::from_str("Relics"),
        }
    }
}

/// The display name of a category.
pub open spec fn spec_category_name(c: Category) -> Seq<char> {
    match c {
        Category::Characters => "Characters"@,
        Category::Materials => "Materials"@,
        Category::Weapons => "Weapons"@,
        Category::Artifacts => "Artifacts"@,
        Category::Achievements => "Achievements"@,
        Category::Quests => "Quests"@,
        Category::Dungeons => "Dungeons"@,
        Category::Scenes => "Scenes"@,
        Category::Monsters => "Monsters"@,
        Category::Items => "Items"@,
        Category::LightCones => "Light Cones"@,
        Category::Relics => "Relics"@,
    }
}

/// The languages a localization table can be loaded for.  The first
/// eight are the defaults when no selection is given; the rest can be
/// asked for explicitly.
#[derive(Debug, Clone, Copy, PartialEq, Eq, Structural, Hash)]
pub enum Language {
    EN,
    FR,
    ID,
    JP,
    RU,
    TH,
    Chs,
    Cht,
    DE,
    ES,
    IT,
    KR,
    PT,
    TR,
    VI,
}

/// The lower-case token of a language, as selections and file names
/// spell it.
pub open spec fn spec_language_code(l: Language) -> Seq<char> {
    match l {
        Language::EN => "en"@,
        Language::FR => "fr"@,
        Language::ID => "id"@,
        Language::JP => "jp"@,
        Language::RU => "ru"@,
        Language::TH => "th"@,
        Language::Chs => "chs"@,
        Language::Cht => "cht"@,
        Language::DE => "de"@,
        Language::ES => "es"@,
        Language::IT => "it"@,
        Language::KR => "kr"@,
        Language::PT => "pt"@,
        Language::TR => "tr"@,
        Language::VI => "vi"@,
    }
}

/// The upper-case form used in localization file names.
pub open spec fn spec_language_upper(l: Language) -> Seq<char> {
    match l {
        Language::EN => "EN"@,
        Language::FR => "FR"@,
        Language::ID => "ID"@,
        Language::JP => "JP"@,
        Language::RU => "RU"@,
        Language::TH => "TH"@,
        Language::Chs => "CHS"@,
        Language::Cht => "CHT"@,
        Language::DE => "DE"@,
        Language::ES => "ES"@,
        Language::IT => "IT"@,
        Language::KR => "KR"@,
        Language::PT => "PT"@,
        Language::TR => "TR"@,
        Language::VI => "VI"@,
    }
}

/// The language that a user token names, up to ASCII case, if any.
pub open spec fn spec_language_from_token(s: Seq<char>) -> Option<Language> {
    if ascii_lower(s) == "en"@ {
        Some(Language::EN)
    } else if ascii_lower(s) == "fr"@ {
        Some(Language::FR)
    } else if ascii_lower(s) == "id"@ {
        Some(Language::ID)
    } else if ascii_lower(s) == "jp"@ {
        Some(Language::JP)
    } else if ascii_lower(s) == "ru"@ {
        Some(Language::RU)
    } else if ascii_lower(s) == "th"@ {
        Some(Language::TH)
    } else if ascii_lower(s) == "chs"@ {
        Some(Language::Chs)
    } else if ascii_lower(s) == "cht"@ {
        Some(Language::Cht)
    } else if ascii_lower(s) == "de"@ {
        Some(Language::DE)
    } else if ascii_lower(s) == "es"@ {
        Some(Language::ES)
    } else if ascii_lower(s) == "it"@ {
        Some(Language::IT)
    } else if ascii_lower(s) == "kr"@ {
        Some(Language::KR)
    } else if ascii_lower(s) == "pt"@ {
        Some(Language::PT)
    } else if ascii_lower(s) == "tr"@ {
        Some(Language::TR)
    } else if ascii_lower(s) == "vi"@ {
        Some(Language::VI)
    } else {
        None
    }
}

impl Language {
    /// The lower-case token of this language.
    pub fn code(&self) -> (r: String)
        ensures
            r@ == spec_language_code(*self),
    {
        match self {
            Language::EN => String::from_str("en"),
            Language::FR => String::from_str("fr"),
            Language::ID => String::from_str("id"),
            Language::JP => String::from_str("jp"),
            Language::RU => String::from_str("ru"),
            Language::TH => String::from_str("th"),
            Language::Chs => String::from_str("chs"),
            Language::Cht => String::from_str("cht"),
            Language::DE => String::from_str("de"),
            Language::ES => String::from_str("es"),
            Language::IT => String::from_str("it"),
            Language::KR => String::from_str("kr"),
            Language::PT => String::from_str("pt"),
            Language::TR => String::from_str("tr"),
            Language::VI => String::from_str("vi"),
        }
    }

    /// The name of this language's localization file,
    /// `TextMap<CODE>.json`.
    pub fn text_map_file_name(&self) -> (r: String)
        ensures
            r@ == "TextMap"@ + spec_language_upper(*self) + ".json"@,
    {
        let mut s = String::from_str("TextMap");
        let up: &str = match self {
            Language::EN => "EN",
            Language::FR => "FR",
            Language::ID => "ID",
            Language::JP => "JP",
            Language::RU => "RU",
            Language::TH => "TH",
            Language::Chs => "CHS",
            Language::Cht => "CHT",
            Language::DE => "DE",
            Language::ES => "ES",
            Language::IT => "IT",
            Language::KR => "KR",
            Language::PT => "PT",
            Language::TR => "TR",
            Language::VI => "VI",
        };
        s.append(up);
        s.append(".json");
        s
    }

    /// Parses a user token, ignoring ASCII case; an unknown token
    /// fails with a message naming it.
    pub fn from_str(s: &str) -> (r: Result<Language, String>)
        ensures
            match r {
                Ok(l) => spec_language_from_token(s@) == Some(l),
                Err(e) => spec_language_from_token(s@) is None && e@ == "Unsupported language: "@
                    + s@,
            },
    {
        if str_eq_fold(s, "en") {
            proof {
                lemma_lower_fixed();
            }
            Ok(Language::EN)
        } else if str_eq_fold(s, "fr") {
            proof {
                lemma_lower_fixed();
            }
            Ok(Language::FR)
        } else if str_eq_fold(s, "id") {
            proof {
                lemma_lower_fixed();
            }
            Ok(Language::ID)
        } else if str_eq_fold(s, "jp") {
            proof {
                lemma_lower_fixed();
            }
            Ok(Language::JP)
        } else if str_eq_fold(s, "ru") {
            proof {
                lemma_lower_fixed();
            }
            Ok(Language::RU)
        } else if str_eq_fold(s, "th") {
            proof {
                lemma_lower_fixed();
            }
            Ok(Language::TH)
        } else if str_eq_fold(s, "chs") {
            proof {
                lemma_lower_fixed();
            }
            Ok(Language::Chs)
        } else if str_eq_fold(s, "cht") {
            proof {
                lemma_lower_fixed();
            }
            Ok(Language::Cht)
        } else if str_eq_fold(s, "de") {
            proof {
                lemma_lower_fixed();
            }
            Ok(Language::DE)
        } else if str_eq_fold(s, "es") {
            proof {
                lemma_lower_fixed();
            }
            Ok(Language::ES)
        } else if str_eq_fold(s, "it") {
            proof {
                lemma_lower_fixed();
            }
            Ok(Language::IT)
        } else if str_eq_fold(s, "kr") {
            proof {
                lemma_lower_fixed();
            }
            Ok(Language::KR)
        } else if str_eq_fold(s, "pt") {
            proof {
                lemma_lower_fixed();
            }
            Ok(Language::PT)
        } else if str_eq_fold(s, "tr") {
            proof {
                lemma_lower_fixed();
            }
            Ok(Language::TR)
        } else if str_eq_fold(s, "vi") {
            proof {
                lemma_lower_fixed();
            }
            Ok(Language::VI)
        } else {
            proof {
                lemma_lower_fixed();
            }
            let mut e = String::from_str("Unsupported language: ");
            e.append(s);
            Err(e)
        }
    }
}

/// The language tokens are already lower-case, so folding them changes
/// nothing; this links the case-blind comparison to the token table.
proof fn lemma_lower_fixed()
    ensures
        ascii_lower("en"@) == "en"@,
        ascii_lower("fr"@) == "fr"@,
        ascii_lower("id"@) == "id"@,
        ascii_lower("jp"@) == "jp"@,
        ascii_lower("ru"@) == "ru"@,
        ascii_lower("th"@) == "th"@,
        ascii_lower("chs"@) == "chs"@,
        ascii_lower("cht"@) == "cht"@,
        ascii_lower("de"@) == "de"@,
        ascii_lower("es"@) == "es"@,
        ascii_lower("it"@) == "it"@,
        ascii_lower("kr"@) == "kr"@,
        ascii_lower("pt"@) == "pt"@,
        ascii_lower("tr"@) == "tr"@,
        ascii_lower("vi"@) == "vi"@,
{
    reveal_strlit("en");
    reveal_strlit("fr");
    reveal_strlit("id");
    reveal_strlit("jp");
    reveal_strlit("ru");
    reveal_strlit("th");
    reveal_strlit("chs");
    reveal_strlit("cht");
    reveal_strlit("de");
    reveal_strlit("es");
    reveal_strlit("it");
    reveal_strlit("kr");
    reveal_strlit("pt");
    reveal_strlit("tr");
    reveal_strlit("vi");
    assert(ascii_lower("en"@) =~= "en"@);
    assert(ascii_lower("fr"@) =~= "fr"@);
    assert(ascii_lower("id"@) =~= "id"@);
    assert(ascii_lower("jp"@) =~= "jp"@);
    assert(ascii_lower("ru"@) =~= "ru"@);
    assert(ascii_lower("th"@) =~= "th"@);
    assert(ascii_lower("chs"@) =~= "chs"@);
    assert(ascii_lower("cht"@) =~= "cht"@);
    assert(ascii_lower("de"@) =~= "de"@);
    assert(ascii_lower("es"@) =~= "es"@);
    assert(ascii_lower("it"@) =~= "it"@);
    assert(ascii_lower("kr"@) =~= "kr"@);
    assert(ascii_lower("pt"@) =~= "pt"@);
    assert(ascii_lower("tr"@) =~= "tr"@);
    assert(ascii_lower("vi"@) =~= "vi"@);
}

/// One generated command variant: a display name and the command text.
#[derive(Debug, PartialEq, Eq)]
pub struct Commands {
    pub name: String,
    pub command: String,
}

impl Clone for Commands {
    /// A copy with the same name and command.
    fn clone(&self) -> (r: Self)
        ensures
            r.name@ == self.name@,
            r.command@ == self.command@,
    {
        Commands { name: self.name.clone(), command: self.command.clone() }
    }
}

} // verus!
