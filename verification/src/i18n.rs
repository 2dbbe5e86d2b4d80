//! What the user is told, in the language of the user.
use vstd::prelude::*;

use crate::text::{find_char, from_chars, starts_with, str_eq, to_chars, u64_to_string};

verus! {

// The language of the user

/// `sys_locale::get_locale`: the locale that the system is set to, if any.
#[verifier::external_body]
fn system_locale() -> (r: Option<String>) {
    sys_locale::get_locale()
}

/// Whether the system can be set to this locale.
pub closed spec fn can_be_locale(raw: Option<Seq<char>>) -> bool {
    exists|locale: Option<String>|
        crate::domain_models::opt_view(locale) == raw && #[trigger] call_ensures(
            system_locale,
            (),
            locale,
        )
}

/// The tag and the language of the language identifier that a text denotes.
pub uninterp spec fn langid_of(text: Seq<char>) -> Option<(Seq<char>, Seq<char>)>;

/// Parsing of a `unic_langid::LanguageIdentifier`: its canonical form and its language.
#[verifier::external_body]
fn parse_langid(text: &str) -> (r: Option<(String, String)>)
    ensures
        match r {
            Some(langid) => langid_of(text@) == Some((langid.0@, langid.1@)),
            None => langid_of(text@) is None,
        },
{
    text.parse::<unic_langid::LanguageIdentifier>().ok().map(
        |langid| (langid.to_string(), langid.language.as_str().to_owned()),
    )
}

/// A language, and often a region.
#[derive(Debug)]
pub struct Langid {
    tag: String,
    language: String,
}

pub ghost struct LangidView {
    pub tag: Seq<char>,
    pub language: Seq<char>,
}

impl View for Langid {
    type V = LangidView;

    closed spec fn view(&self) -> LangidView {
        LangidView { tag: self.tag@, language: self.language@ }
    }
}

/// A locale without its encoding, with hyphens in place of underscores.
pub open spec fn cleaned_locale(raw: Seq<char>) -> Seq<char> {
    let front = match crate::text::first_index(raw, '.') {
        Some(i) => raw.take(i),
        None => raw,
    };
    front.map_values(
        |c: char|
            if c == '_' {
                '-'
            } else {
                c
            },
    )
}

/// The language that a locale stands for; English where it stands for none.
pub open spec fn language_of_locale(raw: Option<Seq<char>>) -> LangidView {
    let locale = match raw {
        Some(raw) => raw,
        None => "en-US"@,
    };
    match langid_of(cleaned_locale(locale)) {
        Some(langid) => LangidView { tag: langid.0, language: langid.1 },
        None => LangidView { tag: "en-US"@, language: "en"@ },
    }
}

fn clean_locale(raw: &str) -> (r: String)
    ensures
        r@ == cleaned_locale(raw@),
{
    let front = match find_char(raw, '.') {
        Some(i) => {
            assert(raw@.subrange(0, i as int) =~= raw@.take(i as int));
            raw.substring_char(0, i)
        },
        None => raw,
    };
    let mut chars = to_chars(front);
    let mut i: usize = 0;
    while i < chars.len()
        invariant
            i <= chars@.len(),
            chars@.len() == front@.len(),
            forall|j: int| 0 <= j < i ==> chars@[j] == (if front@[j] == '_' {
                '-'
            } else {
                front@[j]
            }),
            forall|j: int| i <= j < chars@.len() ==> chars@[j] == front@[j],
        decreases chars@.len() - i,
    {
        if chars[i] == '_' {
            chars.set(i, '-');
        }
        i = i + 1;
    }
    assert(chars@ =~= cleaned_locale(raw@));
    from_chars(&chars)
}

impl Langid {
    /// The language that a locale of an operating system stands for. Examples of such values are
    /// `en_US`, `de_DE.UTF-8`, `fr-FR` and `en-US`.
    pub fn from_locale(raw: Option<String>) -> (r: Self)
        ensures
            r@ == language_of_locale(crate::domain_models::opt_view(raw)),
    {
        let locale = match raw {
            Some(raw) => raw,
            None => "en-US".to_owned(),
        };
        let cleaned = clean_locale(locale.as_str());
        match parse_langid(cleaned.as_str()) {
            Some((tag, language)) => Langid { tag, language },
            None => Langid { tag: "en-US".to_owned(), language: "en".to_owned() },
        }
    }

    pub fn tag(&self) -> (r: &str)
        ensures
            r@ == self@.tag,
    {
        self.tag.as_str()
    }

    pub fn language(&self) -> (r: &str)
        ensures
            r@ == self@.language,
    {
        self.language.as_str()
    }
}

/// The language that the system is set to; English where it is not known.
pub fn detect_langid() -> (r: Langid)
    ensures
        exists|raw: Option<Seq<char>>| #[trigger]
            can_be_locale(raw) && r@ == language_of_locale(raw),
{
    let raw = system_locale();
    let ghost seen = crate::domain_models::opt_view(raw);
    assert(call_ensures(system_locale, (), raw));
    assert(can_be_locale(seen));
    Langid::from_locale(raw)
}

/// The locales that there are texts for.
pub open spec fn supported() -> Seq<Seq<char>> {
    seq![
        "en-US"@, "de-DE"@, "pt-PT"@, "pt-BR"@, "fr-FR"@, "es-ES"@, "it-IT"@, "nl-NL"@,
        "sv-SE"@, "da-DK"@, "nb-NO"@, "fi-FI"@, "is-IS"@, "ga-IE"@, "mt-MT"@, "ru-RU"@,
        "uk-UA"@, "pl-PL"@, "cs-CZ"@, "sk-SK"@, "sl-SI"@, "hr-HR"@, "sr-RS"@, "bs-BA"@,
        "ro-RO"@, "bg-BG"@, "hu-HU"@, "el-GR"@, "tr-TR"@, "et-EE"@, "lv-LV"@, "lt-LT"@,
        "sq-AL"@, "mk-MK"@, "ar-SA"@, "zh-CN"@, "zh-TW"@, "ja-JP"@, "ko-KR"@, "hi-IN"@,
        "id-ID"@,
    ]
}

/// The locales that there are texts for.
pub fn supported_locales() -> (r: Vec<&'static str>)
    ensures
        r@.map_values(|code: &'static str| code@) == supported(),
{
    let codes: Vec<&'static str> = vec![
        "en-US", "de-DE", "pt-PT", "pt-BR", "fr-FR", "es-ES", "it-IT", "nl-NL", "sv-SE",
        "da-DK", "nb-NO", "fi-FI", "is-IS", "ga-IE", "mt-MT", "ru-RU", "uk-UA", "pl-PL",
        "cs-CZ", "sk-SK", "sl-SI", "hr-HR", "sr-RS", "bs-BA", "ro-RO", "bg-BG", "hu-HU",
        "el-GR", "tr-TR", "et-EE", "lv-LV", "lt-LT", "sq-AL", "mk-MK", "ar-SA", "zh-CN",
        "zh-TW", "ja-JP", "ko-KR", "hi-IN", "id-ID",
    ];
    assert(codes@.map_values(|code: &'static str| code@) =~= supported());
    codes
}

/// Where the first of the codes stands that equals the tag.
pub open spec fn exact_match(codes: Seq<Seq<char>>, tag: Seq<char>) -> Option<int>
    decreases codes.len(),
{
    if codes.len() == 0 {
        None
    } else {
        match exact_match(codes.drop_last(), tag) {
            Some(i) => Some(i),
            None => if codes.last() == tag {
                Some(codes.len() - 1)
            } else {
                None
            },
        }
    }
}

/// Where the first of the codes stands that begins with the language.
pub open spec fn approximate_match(codes: Seq<Seq<char>>, language: Seq<char>) -> Option<int>
    decreases codes.len(),
{
    if codes.len() == 0 {
        None
    } else {
        match approximate_match(codes.drop_last(), language) {
            Some(i) => Some(i),
            None => if language.is_prefix_of(codes.last()) {
                Some(codes.len() - 1)
            } else {
                None
            },
        }
    }
}

/// Which of the locales is used: the same one, or else the first of the same language, or else
/// the first of all, which is English.
pub open spec fn chosen_locale(langid: LangidView) -> int {
    match exact_match(supported(), langid.tag) {
        Some(i) => i,
        None => match approximate_match(supported(), langid.language) {
            Some(i) => i,
            None => 0,
        },
    }
}

/// The number of the locale whose texts are used.
pub fn choose_locale(langid: &Langid) -> (r: usize)
    ensures
        r == chosen_locale(langid@),
        r < supported().len(),
{
    let codes = supported_locales();
    let ghost views = codes@.map_values(|code: &'static str| code@);
    let mut i: usize = 0;
    while i < codes.len()
        invariant
            i <= codes@.len(),
            views == codes@.map_values(|code: &'static str| code@),
            views == supported(),
            exact_match(views.take(i as int), langid@.tag) is None,
        decreases codes@.len() - i,
    {
        proof {
            assert(views.take(i + 1).drop_last() =~= views.take(i as int));
        }
        if str_eq(codes[i], langid.tag.as_str()) {
            proof {
                lemma_exact_match_of_prefix(views, langid@.tag, i + 1);
            }
            return i;
        }
        i = i + 1;
    }
    assert(views.take(i as int) =~= views);
    i = 0;
    while i < codes.len()
        invariant
            i <= codes@.len(),
            views == codes@.map_values(|code: &'static str| code@),
            views == supported(),
            exact_match(views, langid@.tag) is None,
            approximate_match(views.take(i as int), langid@.language) is None,
        decreases codes@.len() - i,
    {
        proof {
            assert(views.take(i + 1).drop_last() =~= views.take(i as int));
        }
        if starts_with(codes[i], langid.language.as_str()) {
            proof {
                lemma_approximate_match_of_prefix(views, langid@.language, i + 1);
            }
            return i;
        }
        i = i + 1;
    }
    assert(views.take(i as int) =~= views);
    0
}

proof fn lemma_exact_match_of_prefix(codes: Seq<Seq<char>>, tag: Seq<char>, n: int)
    requires
        0 <= n <= codes.len(),
        exact_match(codes.take(n), tag) is Some,
    ensures
        exact_match(codes, tag) == exact_match(codes.take(n), tag),
    decreases codes.len() - n,
{
    if n < codes.len() {
        assert(codes.take(n + 1).drop_last() =~= codes.take(n));
        lemma_exact_match_of_prefix(codes, tag, n + 1);
    } else {
        assert(codes.take(n) =~= codes);
    }
}

proof fn lemma_approximate_match_of_prefix(codes: Seq<Seq<char>>, language: Seq<char>, n: int)
    requires
        0 <= n <= codes.len(),
        approximate_match(codes.take(n), language) is Some,
    ensures
        approximate_match(codes, language) == approximate_match(codes.take(n), language),
    decreases codes.len() - n,
{
    if n < codes.len() {
        assert(codes.take(n + 1).drop_last() =~= codes.take(n));
        lemma_approximate_match_of_prefix(codes, language, n + 1);
    } else {
        assert(codes.take(n) =~= codes);
    }
}

// Texts

/// Whether a text is a resource of `fluent`: it parses, and no message in it occurs twice.
pub uninterp spec fn is_ftl(ftl: Seq<char>) -> bool;

/// `fluent::FluentResource::try_new` and `fluent::concurrent::FluentBundle::add_resource` with the
/// text: whether both accept it.
#[verifier::external_body]
fn is_fluent_resource(ftl: &str) -> (r: bool)
    ensures
        r == is_ftl(ftl@),
{
    let mut bundle = fluent::concurrent::FluentBundle::new_concurrent(vec![]);
    fluent::FluentResource::try_new(ftl.to_owned()).is_ok_and(
        |resource| bundle.add_resource(resource).is_ok(),
    )
}

/// A character that may stand between the parts of an expression.
pub open spec fn is_blank(c: char) -> bool {
    c == ' ' || c == '\n' || c == '\r'
}

/// A character of a number without its sign.
pub open spec fn is_of_number(c: char) -> bool {
    '0' <= c <= '9' || c == '.'
}

/// The first place from `i` on where no blank stands.
pub open spec fn past_blanks(ftl: Seq<char>, i: int) -> int
    decreases ftl.len() - i,
{
    if 0 <= i < ftl.len() && is_blank(ftl[i]) {
        past_blanks(ftl, i + 1)
    } else {
        i
    }
}

/// The first place from `i` on where no character of a number stands.
pub open spec fn past_number(ftl: Seq<char>, i: int) -> int
    decreases ftl.len() - i,
{
    if 0 <= i < ftl.len() && is_of_number(ftl[i]) {
        past_number(ftl, i + 1)
    } else {
        i
    }
}

/// Whether the character stands at the place.
pub open spec fn stands_at(ftl: Seq<char>, i: int, c: char) -> bool {
    0 <= i < ftl.len() && ftl[i] == c
}

/// Whether an arrow, which makes a choice of the expression before it, stands at the place or
/// behind blanks there.
pub open spec fn arrow_follows(ftl: Seq<char>, i: int) -> bool {
    let j = past_blanks(ftl, i);
    stands_at(ftl, j, '-') && stands_at(ftl, j + 1, '>')
}

/// Whether a placeable begins at the place that holds another one right away, or a choice by a
/// number.
pub open spec fn is_odd_placeable(ftl: Seq<char>, i: int) -> bool {
    let j = past_blanks(ftl, i + 1);
    let digits = if stands_at(ftl, j, '-') {
        j + 1
    } else {
        j
    };
    &&& stands_at(ftl, i, '{')
    &&& stands_at(ftl, j, '{') || arrow_follows(ftl, past_number(ftl, digits))
}

/// Whether something may begin at the place that `fluent` cannot always format: a placeable right
/// inside another, a choice by a number or by a quoted text, or a number that is too long to tell
/// its plural.
pub open spec fn is_odd_at(ftl: Seq<char>, i: int) -> bool {
    ||| is_odd_placeable(ftl, i)
    ||| stands_at(ftl, i, '"') && arrow_follows(ftl, i + 1)
    ||| past_number(ftl, i) > i + LONGEST_NUMBER
}

/// How many digits, with the point, the plural of a number can be told by.
pub const LONGEST_NUMBER: usize = 15;

/// Whether there is nothing in a resource that `fluent` cannot always format.
pub open spec fn is_formattable(ftl: Seq<char>) -> bool {
    forall|i: int| 0 <= i < ftl.len() ==> !#[trigger] is_odd_at(ftl, i)
}

fn skip_blanks(ftl: &Vec<char>, from: usize) -> (r: usize)
    requires
        from <= ftl@.len(),
    ensures
        r == past_blanks(ftl@, from as int),
        from <= r <= ftl@.len(),
{
    let mut i: usize = from;
    while i < ftl.len() && (ftl[i] == ' ' || ftl[i] == '\n' || ftl[i] == '\r')
        invariant
            from <= i <= ftl@.len(),
            past_blanks(ftl@, from as int) == past_blanks(ftl@, i as int),
        decreases ftl@.len() - i,
    {
        i = i + 1;
    }
    i
}

fn skip_number(ftl: &Vec<char>, from: usize) -> (r: usize)
    requires
        from <= ftl@.len(),
    ensures
        r == past_number(ftl@, from as int),
        from <= r <= ftl@.len(),
{
    let mut i: usize = from;
    while i < ftl.len() && ((ftl[i] >= '0' && ftl[i] <= '9') || ftl[i] == '.')
        invariant
            from <= i <= ftl@.len(),
            past_number(ftl@, from as int) == past_number(ftl@, i as int),
        decreases ftl@.len() - i,
    {
        i = i + 1;
    }
    i
}

fn has_arrow(ftl: &Vec<char>, from: usize) -> (r: bool)
    requires
        from <= ftl@.len(),
    ensures
        r == arrow_follows(ftl@, from as int),
{
    let i = skip_blanks(ftl, from);
    i < ftl.len() && ftl[i] == '-' && i + 1 < ftl.len() && ftl[i + 1] == '>'
}

fn has_odd_placeable(ftl: &Vec<char>, i: usize) -> (r: bool)
    requires
        i < ftl@.len(),
    ensures
        r == is_odd_placeable(ftl@, i as int),
{
    if ftl[i] != '{' {
        return false;
    }
    assert(i < ftl.len());
    let j = skip_blanks(ftl, i + 1);
    let digits: usize = if j < ftl.len() && ftl[j] == '-' {
        j + 1
    } else {
        j
    };
    (j < ftl.len() && ftl[j] == '{') || has_arrow(ftl, skip_number(ftl, digits))
}

/// Whether there is nothing in a resource that `fluent` cannot always format.
pub fn can_be_formatted(ftl: &str) -> (r: bool)
    ensures
        r == is_formattable(ftl@),
{
    let chars = to_chars(ftl);
    let mut i: usize = 0;
    while i < chars.len()
        invariant
            i <= chars@.len(),
            chars@ == ftl@,
            forall|k: int| 0 <= k < i ==> !#[trigger] is_odd_at(ftl@, k),
        decreases chars@.len() - i,
    {
        let number_end = skip_number(&chars, i);
        if has_odd_placeable(&chars, i) || (chars[i] == '"' && has_arrow(&chars, i + 1))
            || number_end - i > LONGEST_NUMBER {
            assert(is_odd_at(ftl@, i as int));
            return false;
        }
        assert(!is_odd_at(ftl@, i as int));
        i = i + 1;
    }
    true
}

/// What `fluent` makes of a message of a resource, for a language and the values of its variables:
/// the text, and how many errors there were on the way; nothing where there is no such message or
/// it has no value.
pub uninterp spec fn formatted(
    tag: Seq<char>,
    ftl: Seq<char>,
    id: Seq<char>,
    args: Seq<(Seq<char>, Seq<char>)>,
) -> Option<(Seq<char>, nat)>;

/// The text of a message, where it can be formatted without an error.
pub open spec fn message_text(
    tag: Seq<char>,
    ftl: Seq<char>,
    id: Seq<char>,
    args: Seq<(Seq<char>, Seq<char>)>,
) -> Option<Seq<char>> {
    match formatted(tag, ftl, id, args) {
        Some(message) => if message.1 == 0 {
            Some(message.0)
        } else {
            None
        },
        None => None,
    }
}

/// `fluent::concurrent::FluentBundle::format_pattern` on the message that `get_message` finds in a
/// bundle of the one resource: the text and the number of errors, or nothing where there is no such
/// message or it has no value. Once a message holds too many placeables, the expressions around are
/// replaced by their names; there is none for a placeable right inside another and for a choice by
/// a literal, and formatting them panics. So does telling the plural of a long number. The texts
/// that can hold one of these are left out.
#[verifier::external_body]
fn format_message(
    tag: &str,
    ftl: &str,
    id: &str,
    args: &Vec<(String, String)>,
) -> (r: Option<(String, usize)>)
    requires
        is_formattable(ftl@),
    ensures
        match r {
            Some(message) => formatted(tag@, ftl@, id@, arg_views(args@)) == Some(
                (message.0@, message.1 as nat),
            ),
            None => formatted(tag@, ftl@, id@, arg_views(args@)) is None,
        },
{
    let mut bundle = fluent::concurrent::FluentBundle::new_concurrent(vec![tag.parse().ok()?]);
    bundle.add_resource(fluent::FluentResource::try_new(ftl.to_owned()).ok()?).ok()?;
    let values: fluent::FluentArgs = args.iter().map(|(k, v)| (k.as_str(), v.as_str())).collect();
    let message = bundle.get_message(id)?;
    let mut errors = vec![];
    let text = bundle.format_pattern(message.value()?, Some(&values), &mut errors).into_owned();
    Some((text, errors.len()))
}

pub open spec fn arg_views(args: Seq<(String, String)>) -> Seq<(Seq<char>, Seq<char>)> {
    args.map_values(|arg: (String, String)| (arg.0@, arg.1@))
}

/// The texts in one language.
pub struct Language {
    langid: Langid,
    ftl: String,
}

impl Language {
    /// Every message can be formatted.
    #[verifier::type_invariant]
    spec fn is_valid(&self) -> bool {
        is_formattable(self.ftl@)
    }

    pub closed spec fn langid(&self) -> LangidView {
        self.langid@
    }

    pub closed spec fn ftl(&self) -> Seq<char> {
        self.ftl@
    }

    /// The texts of a resource, for a language.
    pub fn new(langid: Langid, ftl: String) -> (r: Self)
        requires
            is_ftl(ftl@),
            is_formattable(ftl@),
        ensures
            r.langid() == langid@,
            r.ftl() == ftl@,
    {
        Language { langid, ftl }
    }

    /// The texts of a resource, for a language; nothing where the text is no resource or holds what
    /// cannot always be formatted.
    pub fn try_new(langid: Langid, ftl: String) -> (r: Option<Self>)
        ensures
            match r {
                Some(language) => is_ftl(ftl@) && is_formattable(ftl@) && language.langid()
                    == langid@ && language.ftl() == ftl@,
                None => !is_ftl(ftl@) || !is_formattable(ftl@),
            },
    {
        if is_fluent_resource(ftl.as_str()) && can_be_formatted(ftl.as_str()) {
            Some(Language::new(langid, ftl))
        } else {
            None
        }
    }
}

/// The text that is shown: that of the message, or its identifier where there is none.
pub open spec fn shown_text(text: Option<Seq<char>>, id: Seq<char>) -> Seq<char> {
    match text {
        Some(text) => text,
        None => "<"@ + id + ">"@,
    }
}

/// The text of a message, given what was made of it and how many errors there were on the way.
pub fn text_without_errors(message: Option<(String, usize)>) -> (r: Option<String>)
    ensures
        match message {
            Some(message) => if message.1 == 0 {
                r matches Some(text) && text@ == message.0@
            } else {
                r is None
            },
            None => r is None,
        },
{
    match message {
        Some((text, errors)) => if errors == 0 {
            Some(text)
        } else {
            None
        },
        None => None,
    }
}

/// The text that is shown, given that of the message.
pub fn text_or_placeholder(text: Option<String>, id: &str) -> (r: String)
    ensures
        r@ == shown_text(crate::domain_models::opt_view(text), id@),
{
    match text {
        Some(text) => text,
        None => "<".to_owned().concat(id).concat(">"),
    }
}

pub fn text_resource(lang: &Language, id: &str) -> (r: String)
    ensures
        r@ == shown_text(
            message_text(
                lang.langid().tag,
                lang.ftl(),
                id@,
                Seq::<(Seq<char>, Seq<char>)>::empty(),
            ),
            id@,
        ),
{
    let args: Vec<(String, String)> = Vec::new();
    assert(arg_views(args@) =~= Seq::<(Seq<char>, Seq<char>)>::empty());
    text_resource_args(lang, id, &args)
}

pub fn text_resource_args(lang: &Language, id: &str, args: &Vec<(String, String)>) -> (r: String)
    ensures
        r@ == shown_text(
            message_text(lang.langid().tag, lang.ftl(), id@, arg_views(args@)),
            id@,
        ),
{
    proof {
        use_type_invariant(lang);
    }
    let message = format_message(lang.langid.tag.as_str(), lang.ftl.as_str(), id, args);
    text_or_placeholder(text_without_errors(message), id)
}

// Numbers

/// Whether a language writes a comma where others write a point.
pub open spec fn writes_comma(language: Seq<char>) -> bool {
    ||| language == "de"@
    ||| language == "fr"@
    ||| language == "es"@
    ||| language == "it"@
    ||| language == "pt"@
    ||| language == "nl"@
    ||| language == "sv"@
    ||| language == "da"@
    ||| language == "no"@
    ||| language == "nb"@
    ||| language == "fi"@
    ||| language == "pl"@
    ||| language == "cs"@
    ||| language == "sk"@
    ||| language == "sl"@
    ||| language == "hr"@
    ||| language == "sr"@
    ||| language == "bs"@
    ||| language == "ro"@
    ||| language == "bg"@
    ||| language == "hu"@
    ||| language == "el"@
    ||| language == "tr"@
    ||| language == "et"@
    ||| language == "lv"@
    ||| language == "lt"@
    ||| language == "ru"@
    ||| language == "uk"@
}

/// The decimal separator of a language.
pub open spec fn separator_of(language: Seq<char>) -> char {
    if writes_comma(language) {
        ','
    } else {
        '.'
    }
}

pub fn decimal_separator_of(language: &str) -> (r: char)
    ensures
        r == separator_of(language@),
{
    if str_eq(language, "de")
        || str_eq(language, "fr")
        || str_eq(language, "es")
        || str_eq(language, "it")
        || str_eq(language, "pt")
        || str_eq(language, "nl")
        || str_eq(language, "sv")
        || str_eq(language, "da")
        || str_eq(language, "no")
        || str_eq(language, "nb")
        || str_eq(language, "fi")
        || str_eq(language, "pl")
        || str_eq(language, "cs")
        || str_eq(language, "sk")
        || str_eq(language, "sl")
        || str_eq(language, "hr")
        || str_eq(language, "sr")
        || str_eq(language, "bs")
        || str_eq(language, "ro")
        || str_eq(language, "bg")
        || str_eq(language, "hu")
        || str_eq(language, "el")
        || str_eq(language, "tr")
        || str_eq(language, "et")
        || str_eq(language, "lv")
        || str_eq(language, "lt")
        || str_eq(language, "ru")
        || str_eq(language, "uk") {
        ','
    } else {
        '.'
    }
}

/// The decimal separator of the language that the system is set to.
pub fn get_decimal_separator() -> (r: char)
    ensures
        exists|raw: Option<Seq<char>>| #[trigger]
            can_be_locale(raw) && r == separator_of(language_of_locale(raw).language),
        r == ',' || r == '.',
{
    decimal_separator_of(detect_langid().language())
}

/// The integer that is nearest to a quotient; the even one where two are equally near.
pub open spec fn round_half_even(n: nat, d: nat) -> nat {
    let whole = n / d;
    let rest = n % d;
    if 2 * rest < d || (2 * rest == d && whole % 2 == 0) {
        whole
    } else {
        whole + 1
    }
}

fn divide_half_even(n: u128, d: u128) -> (r: u128)
    requires
        0 < d <= 0x4000_0000_0000_0000_0000_0000_0000_0000,
        n < 0xffff_ffff_ffff_ffff_ffff_ffff_ffff_ffff,
    ensures
        r == round_half_even(n as nat, d as nat),
{
    let whole: u128 = n / d;
    let rest: u128 = n % d;
    if 2 * rest < d || (2 * rest == d && whole % 2 == 0) {
        whole
    } else {
        assert(whole <= n) by (nonlinear_arith)
            requires
                whole == n / d,
                d >= 1,
        ;
        whole + 1
    }
}

/// A number doubled until it has 64 binary digits, and how often that was.
pub open spec fn normalized(n: nat, doublings: nat) -> (nat, nat)
    decreases 0x1_0000_0000_0000_0000 - n,
{
    if n == 0 || n >= 0x8000_0000_0000_0000 {
        (n, doublings)
    } else {
        normalized(2 * n, doublings + 1)
    }
}

/// A number as a floating-point number of 53 binary digits: `(m, s)` stands for
/// `m * 2048 / 2^s`.
pub open spec fn as_float(n: nat) -> (nat, nat) {
    let (m, s) = normalized(n, 0);
    (round_half_even(m, 2048), s)
}

/// The thousandth of a floating-point number, to 53 binary digits again.
pub open spec fn thousandth(float: (nat, nat)) -> (nat, nat) {
    if 512 * float.0 >= 1000 * 0x10_0000_0000_0000 {
        (round_half_even(512 * float.0, 1000), float.1 + 9)
    } else {
        (round_half_even(1024 * float.0, 1000), float.1 + 10)
    }
}

/// A power of two.
pub open spec fn two_to_the(n: nat) -> nat
    decreases n,
{
    if n == 0 {
        1
    } else {
        2 * two_to_the((n - 1) as nat)
    }
}

/// A floating-point number in tenths, rounded.
pub open spec fn tenths(float: (nat, nat)) -> nat {
    round_half_even(20480 * float.0, two_to_the(float.1))
}

/// A number of tenths with one digit behind the separator.
pub open spec fn tenths_text(n: nat, separator: char) -> Seq<char> {
    crate::text::decimal(n / 10) + seq![separator, crate::text::digit_char(n % 10)]
}

/// A size, and the unit in which it is shown.
pub open spec fn file_size_text(bytes: u64, separator: char) -> (Seq<char>, Seq<char>) {
    let kilo = thousandth(as_float(bytes as nat));
    if bytes < 1_000 {
        (crate::text::decimal(bytes as nat), "B"@)
    } else if bytes < 1_000_000 {
        (tenths_text(tenths(kilo), separator), "KB"@)
    } else if bytes < 1_000_000_000 {
        (tenths_text(tenths(thousandth(kilo)), separator), "MB"@)
    } else {
        (tenths_text(tenths(thousandth(thousandth(kilo))), separator), "GB"@)
    }
}

/// A floating-point number as it is computed with.
struct Float {
    digits: u128,
    halvings: u32,
}

impl Float {
    spec fn value(self) -> (nat, nat) {
        (self.digits as nat, self.halvings as nat)
    }

    fn of(n: u64) -> (r: Self)
        requires
            n > 0,
        ensures
            r.value() == as_float(n as nat),
            r.digits <= 0x20_0000_0000_0000,
            r.halvings <= 63,
    {
        let mut m: u128 = n as u128;
        let mut s: u32 = 0;
        while m < 0x8000_0000_0000_0000
            invariant
                0 < m <= 0xffff_ffff_ffff_ffff,
                s <= 63,
                m >= two_to_the(s as nat),
                normalized(n as nat, 0) == normalized(m as nat, s as nat),
            decreases 0x1_0000_0000_0000_0000 - m,
        {
            proof {
                if s >= 63 {
                    assert(s == 63);
                    lemma_two_to_the_63();
                }
            }
            m = 2 * m;
            s = s + 1;
        }
        let digits = divide_half_even(m, 2048);
        Float { digits, halvings: s }
    }

    fn thousandth(&self) -> (r: Self)
        requires
            self.digits <= 0x20_0000_0000_0000,
            self.halvings <= 90,
        ensures
            r.value() == thousandth(self.value()),
            r.digits <= 0x20_0000_0000_0000,
            self.halvings + 9 <= r.halvings <= self.halvings + 10,
    {
        if 512 * self.digits >= 1000 * 0x10_0000_0000_0000u128 {
            Float { digits: divide_half_even(512 * self.digits, 1000), halvings: self.halvings + 9 }
        } else {
            Float {
                digits: divide_half_even(1024 * self.digits, 1000),
                halvings: self.halvings + 10,
            }
        }
    }

    fn tenths(&self) -> (r: u64)
        requires
            self.digits <= 0x20_0000_0000_0000,
            9 <= self.halvings <= 100,
        ensures
            r == tenths(self.value()),
    {
        let mut d: u128 = 1;
        let mut i: u32 = 0;
        proof {
            lemma_two_to_the_100();
        }
        while i < self.halvings
            invariant
                i <= self.halvings <= 100,
                d == two_to_the(i as nat),
                1 <= d,
                d <= two_to_the(100),
            decreases self.halvings - i,
        {
            proof {
                lemma_two_to_the_grows(i as nat + 1, 100);
                lemma_two_to_the_100();
            }
            d = 2 * d;
            i = i + 1;
        }
        proof {
            lemma_two_to_the_100();
            lemma_two_to_the_grows(9, self.halvings as nat);
            assert(two_to_the(9) == 512) by {
                reveal_with_fuel(two_to_the, 10);
            }
            let n = 20480 * self.digits as int;
            assert(n / (d as int) <= n / 512) by (nonlinear_arith)
                requires
                    n >= 0,
                    d >= 512,
            ;
        }
        divide_half_even(20480 * self.digits, d) as u64
    }
}

proof fn lemma_two_to_the_63()
    ensures
        two_to_the(63) == 0x8000_0000_0000_0000,
{
    reveal_with_fuel(two_to_the, 64);
}

proof fn lemma_two_to_the_100()
    ensures
        two_to_the(100) == 0x10_0000_0000_0000_0000_0000_0000,
{
    assert(two_to_the(50) == 0x4_0000_0000_0000) by {
        reveal_with_fuel(two_to_the, 51);
    }
    assert(two_to_the(100) == 0x4_0000_0000_0000 * two_to_the(50)) by {
        reveal_with_fuel(two_to_the, 51);
    }
}

proof fn lemma_two_to_the_grows(n: nat, m: nat)
    requires
        n <= m,
    ensures
        two_to_the(n) <= two_to_the(m),
    decreases m - n,
{
    if n < m {
        lemma_two_to_the_grows(n, (m - 1) as nat);
    }
}

fn show_tenths(n: u64, separator: char) -> (r: String)
    ensures
        r@ == tenths_text(n as nat, separator),
{
    let mut text = u64_to_string(n / 10);
    text.push(separator);
    let last = u64_to_string(n % 10);
    proof {
        assert(crate::text::decimal((n % 10) as nat) =~= seq![
            crate::text::digit_char((n % 10) as nat),
        ]);
    }
    let shown = text.concat(last.as_str());
    assert(shown@ =~= tenths_text(n as nat, separator));
    shown
}

/// A size in bytes as people read it, and its unit, with the given decimal separator.
pub fn format_file_size_with(bytes: u64, separator: char) -> (r: (String, &'static str))
    ensures
        (r.0@, r.1@) == file_size_text(bytes, separator),
{
    if bytes < 1_000 {
        return (u64_to_string(bytes), "B");
    }
    let kilo = Float::of(bytes).thousandth();
    if bytes < 1_000_000 {
        (show_tenths(kilo.tenths(), separator), "KB")
    } else if bytes < 1_000_000_000 {
        (show_tenths(kilo.thousandth().tenths(), separator), "MB")
    } else {
        (show_tenths(kilo.thousandth().thousandth().tenths(), separator), "GB")
    }
}

/// Format file size in bytes to a human-readable string with appropriate unit, with the decimal
/// separator of the language that the system is set to.
pub fn format_file_size(bytes: u64) -> (r: (String, &'static str))
    ensures
        exists|raw: Option<Seq<char>>| #[trigger]
            can_be_locale(raw) && (r.0@, r.1@) == file_size_text(
                bytes,
                separator_of(language_of_locale(raw).language),
            ),
{
    format_file_size_with(bytes, get_decimal_separator())
}

proof fn lemma_exact_match(codes: Seq<Seq<char>>, tag: Seq<char>)
    ensures
        match exact_match(codes, tag) {
            Some(i) => 0 <= i < codes.len() && codes[i] == tag,
            None => !codes.contains(tag),
        },
    decreases codes.len(),
{
    if codes.len() > 0 {
        let fewer = codes.drop_last();
        lemma_exact_match(fewer, tag);
        if exact_match(codes, tag) is None && codes.contains(tag) {
            let i = choose|i: int| 0 <= i < codes.len() && codes[i] == tag;
            assert(fewer[i] == tag);
        }
    }
}

proof fn lemma_approximate_match(codes: Seq<Seq<char>>, language: Seq<char>)
    ensures
        match approximate_match(codes, language) {
            Some(i) => 0 <= i < codes.len() && language.is_prefix_of(codes[i]) && forall|k: int|
                0 <= k < i ==> !language.is_prefix_of(#[trigger] codes[k]),
            None => forall|k: int|
                0 <= k < codes.len() ==> !language.is_prefix_of(#[trigger] codes[k]),
        },
    decreases codes.len(),
{
    if codes.len() > 0 {
        let fewer = codes.drop_last();
        lemma_approximate_match(fewer, language);
        assert forall|k: int| 0 <= k < fewer.len() implies #[trigger] codes[k] == fewer[k] by {}
    }
}

/// The texts are those of the locale that the system is set to, where there are any; or else of the
/// first one of its language; or else they are English.
pub proof fn law_the_closest_locale_is_chosen(langid: LangidView)
    ensures
        0 <= chosen_locale(langid) < supported().len(),
        supported().contains(langid.tag) ==> supported()[chosen_locale(langid)] == langid.tag,
        !supported().contains(langid.tag) ==> {
            if exists|k: int|
                0 <= k < supported().len() && langid.language.is_prefix_of(
                    #[trigger] supported()[k],
                ) {
                &&& langid.language.is_prefix_of(supported()[chosen_locale(langid)])
                &&& forall|k: int|
                    0 <= k < chosen_locale(langid) ==> !langid.language.is_prefix_of(
                        #[trigger] supported()[k],
                    )
            } else {
                supported()[chosen_locale(langid)] == "en-US"@
            }
        },
{
    lemma_exact_match(supported(), langid.tag);
    lemma_approximate_match(supported(), langid.language);
}

} // verus!
