//! Locale negotiation: which shipped catalog a BCP-47 locale resolves to.
//!
//! Three language families need more than a match on the primary subtag:
//! Chinese is decided by script and region, Portuguese by region, and the
//! Norwegian codes all fold onto the one Bokmål catalog.

use vstd::prelude::*;

use fluent_langneg::{negotiate_languages, LanguageIdentifier, NegotiationStrategy};

use crate::text::{push_char, str_eq};

verus! {

/// The catalog codes the interface ships, in the order of the settings
/// picker.
pub open spec fn supported_codes() -> Seq<Seq<char>> {
    seq![
        "be"@, "da"@, "de"@, "en"@, "es"@, "fr"@, "it"@, "nl"@, "nb"@, "pl"@, "pt-PT"@, "pt-BR"@,
        "fi"@, "sv"@, "tr"@, "el"@, "ru"@, "uk"@, "ja"@, "zh-CN"@, "zh-HK"@, "zh-TW"@, "ko"@,
    ]
}

/// The shipped locales as `(code, native name)`, in the order of the
/// settings picker (after "Follow system").
pub fn supported() -> (table: Vec<(&'static str, &'static str)>)
    ensures
        table@.len() == supported_codes().len(),
        forall|i: int| 0 <= i < table@.len() ==> (#[trigger] table@[i]).0@ == supported_codes()[i],
{
    let table = vec![
        ("be", "Беларуская"),
        ("da", "Dansk"),
        ("de", "Deutsch"),
        ("en", "English"),
        ("es", "Español"),
        ("fr", "Français"),
        ("it", "Italiano"),
        ("nl", "Nederlands"),
        ("nb", "Norsk"),
        ("pl", "Polski"),
        ("pt-PT", "Português"),
        ("pt-BR", "Português - Brasil"),
        ("fi", "Suomi"),
        ("sv", "Svenska"),
        ("tr", "Türkçe"),
        ("el", "Ελληνικά"),
        ("ru", "Русский"),
        ("uk", "Українська"),
        ("ja", "日本語"),
        ("zh-CN", "简体中文"),
        ("zh-HK", "繁體中文（香港）"),
        ("zh-TW", "正體中文（臺灣）"),
        ("ko", "한국어"),
    ];
    assert(table@.len() == supported_codes().len());
    table
}

/// The catalog a locale of one of the special families resolves to, from
/// its primary language, script and region subtags (as canonicalized by
/// BCP-47 parsing: lower-case language, title-case script, upper-case
/// region).
pub open spec fn spec_special_locale(language: Seq<char>, script: Option<Seq<char>>, region: Option<Seq<char>>) -> Option<Seq<char>> {
    if language == "nb"@ || language == "nn"@ || language == "no"@ {
        Some("nb"@)
    } else if language == "pt"@ {
        if region == Some("BR"@) { Some("pt-BR"@) } else { Some("pt-PT"@) }
    } else if language == "zh"@ {
        if script == Some("Hans"@) {
            Some("zh-CN"@)
        } else if region == Some("HK"@) || region == Some("MO"@) {
            Some("zh-HK"@)
        } else if region == Some("TW"@) || script == Some("Hant"@) {
            Some("zh-TW"@)
        } else {
            Some("zh-CN"@)
        }
    } else {
        None
    }
}

/// Whether an optional subtag is `value`.
fn subtag_is(subtag: Option<&str>, value: &str) -> (b: bool)
    ensures
        b == (match subtag { Some(s) => s@ == value@, None => false }),
{
    match subtag {
        Some(s) => str_eq(s, value),
        None => false,
    }
}

/// The catalog a locale of the Norwegian, Portuguese or Chinese family
/// resolves to, or `None` for any other language: explicit `Hans` always
/// means `zh-CN`; a `HK` / `MO` region means `zh-HK`; a `TW` region or a
/// bare `Hant` script means `zh-TW`; any other Chinese means `zh-CN`; a
/// `BR` region means `pt-BR`, any other Portuguese `pt-PT`; and `nb`, `nn`
/// and `no` all mean `nb`.
pub fn special_locale(language: &str, script: Option<&str>, region: Option<&str>) -> (r: Option<&'static str>)
    ensures
        match r {
            Some(c) => spec_special_locale(language@, script_view(script), script_view(region)) == Some(c@),
            None => spec_special_locale(language@, script_view(script), script_view(region)) is None,
        },
{
    proof {
        reveal_strlit("nb");
        reveal_strlit("nn");
        reveal_strlit("no");
        reveal_strlit("pt");
        reveal_strlit("zh");
        reveal_strlit("BR");
        reveal_strlit("HK");
        reveal_strlit("MO");
        reveal_strlit("TW");
        reveal_strlit("Hans");
        reveal_strlit("Hant");
    }
    if str_eq(language, "nb") || str_eq(language, "nn") || str_eq(language, "no") {
        Some("nb")
    } else if str_eq(language, "pt") {
        if subtag_is(region, "BR") { Some("pt-BR") } else { Some("pt-PT") }
    } else if str_eq(language, "zh") {
        if subtag_is(script, "Hans") {
            Some("zh-CN")
        } else if subtag_is(region, "HK") || subtag_is(region, "MO") {
            Some("zh-HK")
        } else if subtag_is(region, "TW") || subtag_is(script, "Hant") {
            Some("zh-TW")
        } else {
            Some("zh-CN")
        }
    } else {
        None
    }
}

/// The view of an optional subtag.
pub open spec fn script_view(s: Option<&str>) -> Option<Seq<char>> {
    match s {
        Some(t) => Some(t@),
        None => None,
    }
}

/// The shipped code equal to `code`, if any.
pub fn supported_code(code: &str) -> (r: Option<&'static str>)
    ensures
        match r {
            Some(c) => c@ == code@ && supported_codes().contains(code@),
            None => !supported_codes().contains(code@),
        },
{
    let table = supported();
    let mut i: usize = 0;
    while i < table.len()
        invariant
            i <= table@.len(),
            table@.len() == supported_codes().len(),
            forall|k: int| 0 <= k < table@.len() ==> (#[trigger] table@[k]).0@ == supported_codes()[k],
            forall|k: int| 0 <= k < i ==> supported_codes()[k] != code@,
        decreases table.len() - i,
    {
        if str_eq(table[i].0, code) {
            proof {
                assert(supported_codes()[i as int] == code@);
            }
            return Some(table[i].0);
        }
        i += 1;
    }
    None
}

/// Every catalog a special family resolves to is one the interface ships.
pub proof fn lemma_special_locales_are_shipped(language: Seq<char>, script: Option<Seq<char>>, region: Option<Seq<char>>)
    ensures
        spec_special_locale(language, script, region) matches Some(c) ==> supported_codes().contains(c),
{
    if let Some(c) = spec_special_locale(language, script, region) {
        if c == "nb"@ {
            assert(supported_codes()[8] == c);
        } else if c == "pt-BR"@ {
            assert(supported_codes()[11] == c);
        } else if c == "pt-PT"@ {
            assert(supported_codes()[10] == c);
        } else if c == "zh-CN"@ {
            assert(supported_codes()[19] == c);
        } else if c == "zh-HK"@ {
            assert(supported_codes()[20] == c);
        } else {
            assert(c == "zh-TW"@);
            assert(supported_codes()[21] == c);
        }
    }
}

/// The language, script and region subtags of a BCP-47 language
/// identifier, as parsing canonicalizes them; `None` when the text is not
/// one.
pub uninterp spec fn langid_parts(code: Seq<char>) -> Option<(Seq<char>, Option<Seq<char>>, Option<Seq<char>>)>;

/// The view of parsed subtags.
pub open spec fn parts_view(p: Option<(String, Option<String>, Option<String>)>) -> Option<(Seq<char>, Option<Seq<char>>, Option<Seq<char>>)> {
    match p {
        Some((l, s, r)) => Some((l@, crate::config::file::opt_text(s), crate::config::file::opt_text(r))),
        None => None,
    }
}

/// Parse a BCP-47 language identifier into its language, script and region
/// subtags, by `fluent_langneg::LanguageIdentifier`'s `FromStr`; the result is
/// named, not stated.
#[verifier::external_body]
fn parse_language_id(code: &str) -> (r: Option<(String, Option<String>, Option<String>)>)
    ensures
        parts_view(r) == langid_parts(code@),
{
    match code.parse::<LanguageIdentifier>() {
        Ok(id) => Some((
            id.language.as_str().to_string(),
            id.script.map(|s| s.as_str().to_string()),
            id.region.map(|r| r.as_str().to_string()),
        )),
        Err(_) => None,
    }
}

/// The catalog code `fluent_langneg`'s lookup negotiation picks for the
/// requested identifier among the available ones, as text.
pub uninterp spec fn lookup_negotiation(requested: Seq<char>, available: Seq<Seq<char>>) -> Option<Seq<char>>;

/// The view of a list of codes.
pub open spec fn codes_view(codes: Seq<&str>) -> Seq<Seq<char>> {
    codes.map_values(|c: &str| c@)
}

/// The available identifier that `fluent_langneg::negotiate_languages`
/// picks first for `requested` under the lookup strategy, with no default,
/// rendered as text; `None` when nothing matches or an identifier does not
/// parse. The result is named, not stated.
#[verifier::external_body]
fn negotiate_lookup(requested: &str, available: &[&str]) -> (r: Option<String>)
    ensures
        crate::config::file::opt_text(r) == lookup_negotiation(requested@, codes_view(available@)),
{
    let requested: LanguageIdentifier = match requested.parse() {
        Ok(id) => id,
        Err(_) => return None,
    };
    let available: Vec<LanguageIdentifier> = match available.iter().map(|c| c.parse()).collect() {
        Ok(ids) => ids,
        Err(_) => return None,
    };
    negotiate_languages(std::slice::from_ref(&requested), &available, None, NegotiationStrategy::Lookup)
        .into_iter()
        .next()
        .map(|id| id.to_string())
}

/// `code` with every `_` replaced by `-`.
pub open spec fn dashed(code: Seq<char>) -> Seq<char> {
    code.map_values(|c: char| if c == '_' { '-' } else { c })
}

/// `code` with every `_` replaced by `-`.
fn dash_separators(code: &str) -> (s: String)
    ensures
        s@ == dashed(code@),
{
    let n = code.unicode_len();
    let mut s = String::new();
    let mut i: usize = 0;
    while i < n
        invariant
            n == code@.len(),
            i <= n,
            s@ == dashed(code@.subrange(0, i as int)),
        decreases n - i,
    {
        let c = code.get_char(i);
        push_char(&mut s, if c == '_' { '-' } else { c });
        assert(dashed(code@.subrange(0, i + 1)) =~= dashed(code@.subrange(0, i as int)).push(if c == '_' { '-' } else { c }));
        i += 1;
    }
    assert(code@.subrange(0, n as int) =~= code@);
    s
}

/// The shipped codes, as a list.
fn supported_code_list() -> (codes: Vec<&'static str>)
    ensures
        codes_view(codes@) == supported_codes(),
{
    let table = supported();
    let mut codes: Vec<&'static str> = Vec::new();
    let mut i: usize = 0;
    while i < table.len()
        invariant
            i <= table@.len(),
            table@.len() == supported_codes().len(),
            forall|k: int| 0 <= k < table@.len() ==> (#[trigger] table@[k]).0@ == supported_codes()[k],
            codes@.len() == i,
            codes_view(codes@) == supported_codes().subrange(0, i as int),
        decreases table.len() - i,
    {
        let ghost before = codes@;
        codes.push(table[i].0);
        assert(table@[i as int].0@ == supported_codes()[i as int]);
        assert forall|k: int| 0 <= k < i + 1 implies #[trigger] codes_view(codes@)[k] == supported_codes().subrange(0, i + 1)[k] by {
            if k < i {
                assert(codes@[k] == before[k]);
                assert(codes_view(before)[k] == supported_codes().subrange(0, i as int)[k]);
            }
        }
        assert(codes_view(codes@) =~= supported_codes().subrange(0, i + 1));
        i += 1;
    }
    assert(supported_codes().subrange(0, table@.len() as int) =~= supported_codes());
    codes
}

/// The catalog a locale resolves to, given its parsed subtags and the code
/// lookup negotiation picked for it: nothing when it does not parse; a
/// special family's catalog; else the negotiated code when the interface
/// ships it.
pub open spec fn spec_choose_catalog(
    parts: Option<(Seq<char>, Option<Seq<char>>, Option<Seq<char>>)>,
    negotiated: Option<Seq<char>>,
) -> Option<Seq<char>> {
    match parts {
        None => None,
        Some((language, script, region)) => match spec_special_locale(language, script, region) {
            Some(c) => Some(c),
            None => match negotiated {
                Some(m) => if supported_codes().contains(m) { Some(m) } else { None },
                None => None,
            },
        },
    }
}

/// The view of an optional code.
pub open spec fn code_view(c: Option<&str>) -> Option<Seq<char>> {
    match c {
        Some(t) => Some(t@),
        None => None,
    }
}

/// The catalog a locale resolves to, given its parsed subtags and the code
/// lookup negotiation picked for it.
pub fn choose_catalog(parts: Option<(String, Option<String>, Option<String>)>, negotiated: Option<&str>) -> (r: Option<&'static str>)
    ensures
        code_view(r) == spec_choose_catalog(parts_view(parts), code_view(negotiated)),
{
    match parts {
        None => None,
        Some((language, script, region)) => {
            let script_ref: Option<&str> = match &script { Some(s) => Some(s.as_str()), None => None };
            let region_ref: Option<&str> = match &region { Some(s) => Some(s.as_str()), None => None };
            proof {
                assert(script_view(script_ref) == crate::config::file::opt_text(script));
                assert(script_view(region_ref) == crate::config::file::opt_text(region));
            }
            match special_locale(language.as_str(), script_ref, region_ref) {
                Some(c) => Some(c),
                None => match negotiated {
                    Some(m) => supported_code(m),
                    None => None,
                },
            }
        },
    }
}

/// The catalog a locale code resolves to, over the named results of
/// parsing its dashed form and of lookup negotiation (asked only when no
/// special family decides).
pub open spec fn spec_match_supported(code: Seq<char>) -> Option<Seq<char>> {
    let n = dashed(code);
    let parts = langid_parts(n);
    let negotiated = match parts {
        Some((l, s, r)) => if spec_special_locale(l, s, r) is None {
            lookup_negotiation(n, supported_codes())
        } else {
            None
        },
        None => None,
    };
    spec_choose_catalog(parts, negotiated)
}

/// The catalog a locale code resolves to: `_` separators are accepted as
/// `-`; the Norwegian, Portuguese and Chinese families by their subtags;
/// anything else by lookup negotiation over the shipped catalogs.
pub fn match_supported(code: &str) -> (r: Option<&'static str>)
    ensures
        code_view(r) == spec_match_supported(code@),
{
    let normalized = dash_separators(code);
    let parts = parse_language_id(normalized.as_str());
    let needs_lookup = match &parts {
        Some((language, script, region)) => {
            let script_ref: Option<&str> = match script { Some(s) => Some(s.as_str()), None => None };
            let region_ref: Option<&str> = match region { Some(s) => Some(s.as_str()), None => None };
            special_locale(language.as_str(), script_ref, region_ref).is_none()
        },
        None => false,
    };
    if needs_lookup {
        let codes = supported_code_list();
        let negotiated = negotiate_lookup(normalized.as_str(), codes.as_slice());
        match negotiated {
            Some(m) => choose_catalog(parts, Some(m.as_str())),
            None => choose_catalog(parts, None),
        }
    } else {
        choose_catalog(parts, None)
    }
}

/// The catalog a stored setting and a system locale resolve to: the
/// setting's when it resolves, else the system's, else English.
pub open spec fn spec_resolve(setting: Option<Seq<char>>, system: Option<Seq<char>>) -> Seq<char> {
    let from_setting = match setting { Some(c) => spec_match_supported(c), None => None };
    let from_system = match system { Some(c) => spec_match_supported(c), None => None };
    match from_setting {
        Some(c) => c,
        None => match from_system {
            Some(c) => c,
            None => "en"@,
        },
    }
}

/// The catalog to apply: the stored setting when it resolves, else the
/// system locale when it resolves, else English. An unrecognized stored
/// code follows the system rather than failing.
pub fn resolve(setting: Option<&str>, system: Option<&str>) -> (r: &'static str)
    ensures
        r@ == spec_resolve(code_view(setting), code_view(system)),
        supported_codes().contains(r@),
{
    proof { reveal_strlit("en"); }
    let from_setting = match setting {
        Some(code) => match_supported(code),
        None => None,
    };
    match from_setting {
        Some(c) => {
            proof { lemma_matched_is_shipped(setting->0@); }
            c
        },
        None => {
            let from_system = match system {
                Some(code) => match_supported(code),
                None => None,
            };
            match from_system {
                Some(c) => {
                    proof { lemma_matched_is_shipped(system->0@); }
                    c
                },
                None => {
                    proof { assert(supported_codes()[3] == "en"@); }
                    "en"
                },
            }
        },
    }
}

/// Every catalog a locale resolves to is one the interface ships.
pub proof fn lemma_matched_is_shipped(code: Seq<char>)
    ensures
        spec_match_supported(code) is Some ==> supported_codes().contains(spec_match_supported(code)->0),
{
    if let Some((l, s, r)) = langid_parts(dashed(code)) {
        lemma_special_locales_are_shipped(l, s, r);
    }
}

} // verus!
