//! Search queries for cover art, built from what is known about a disc.

use vstd::prelude::*;
use crate::disc::formats::FilesystemType;
use crate::disc::identifier::{normalize_volume_label, normalized_label, ParsedFilename};
use crate::disc::reader::DiscInfo;
use crate::pattern::{regex_replaced_all, replace_every};
use crate::text::number::{decimal_chars, decimal_text};
use crate::text::search::{
    contains_in, contains_sub, eq_ignore_ascii_case, eq_ignoring_ascii_case, find_in, find_sub,
};
use crate::text::trim::{
    collapse_space_chars, collapse_spaces, join, join_chars, split_words, words,
};
use crate::text::{
    append_parts, char_is_alnum, char_is_upper, chars_of, concat2, concat3, copy_range, is_alnum,
    is_upper, lowercase_text, optional_view, push_part, str_eq, string_of, string_views,
    to_lowercase, to_uppercase, uppercase_text, views, wrap_each, wrapped,
};

verus! {

/// What `urlencoding::encode` yields.
pub uninterp spec fn url_encoded(text: Seq<char>) -> Seq<char>;

/// `urlencoding::encode`: the text with every byte that is not a letter, a
/// digit, `-`, `_`, `.` or `~` written as `%` and two hexadecimal digits.
#[verifier::external_body]
pub(crate) fn url_encode(text: &str) -> (r: String)
    ensures
        r@ == url_encoded(text@),
{
    urlencoding::encode(text).into_owned()
}

/// The kind of content that a disc holds.
#[derive(Debug, Clone, Copy, PartialEq, Eq, Structural)]
pub enum ContentType {
    /// Anything.
    Any,
    /// Games.
    Games,
    /// Applications and utilities.
    AppsUtilities,
    /// Audio CDs.
    AudioCDs,
}

/// How searches behave.
#[derive(Debug, Clone)]
pub struct SearchConfig {
    /// Sites to exclude from the results.
    pub exclusion_sites: Vec<String>,
    /// Platform keywords to exclude from the results.
    pub exclusion_platforms: Vec<String>,
    /// Keywords for searches for CDs.
    pub cd_keywords: Vec<String>,
    /// Keywords for searches for DVDs.
    pub dvd_keywords: Vec<String>,
    /// Known publishers, which are taken out of titles.
    pub known_publishers: Vec<String>,
    /// The kind of content, which selects the sites.
    pub content_type: ContentType,
    /// Known sites for games.
    pub games_sites: Vec<String>,
    /// Known sites for applications and utilities.
    pub apps_sites: Vec<String>,
    /// Known sites for audio CDs.
    pub audio_sites: Vec<String>,
    /// User agent for requests.
    pub user_agent: Option<String>,
}

/// A search query.
#[derive(Debug, Clone)]
pub struct ArtworkSearchQuery {
    /// The title to search for.
    pub title: String,
    /// Another title, searched for as an alternative.
    pub alt_title: Option<String>,
    /// Region.
    pub region: Option<String>,
    /// Platform hint, such as "DOS" or "PC".
    pub platform: Option<String>,
    /// Year.
    pub year: Option<u32>,
    /// Terms that end the query.
    pub search_suffix: String,
    /// Publisher, kept apart from the title.
    pub publisher: Option<String>,
    /// The file name the query was made from.
    pub original_filename: Option<String>,
    /// Whether the disc is one for the Macintosh.
    pub is_mac_game: bool,
    /// The kind of content, which selects the form of the query.
    pub content_type: ContentType,
}

/// The content type that a name in lower case stands for.
pub open spec fn content_type_of(lower: Seq<char>) -> ContentType {
    if lower == "games"@ {
        ContentType::Games
    } else if lower == "apps_utilities"@ || lower == "apps"@ {
        ContentType::AppsUtilities
    } else if lower == "audio_cds"@ || lower == "audio"@ {
        ContentType::AudioCDs
    } else {
        ContentType::Any
    }
}

impl ContentType {
    /// The name of the content type in configuration files.
    pub fn as_str(&self) -> (r: &'static str)
        ensures
            r@ == match *self {
                ContentType::Any => "any"@,
                ContentType::Games => "games"@,
                ContentType::AppsUtilities => "apps_utilities"@,
                ContentType::AudioCDs => "audio_cds"@,
            },
    {
        match self {
            ContentType::Any => "any",
            ContentType::Games => "games",
            ContentType::AppsUtilities => "apps_utilities",
            ContentType::AudioCDs => "audio_cds",
        }
    }

    /// The content type that a name stands for, in any case of letters;
    /// `Any` for an unknown name.
    pub fn from_str(s: &str) -> (r: Self)
        ensures
            r == content_type_of(lowercase_text(s@)),
    {
        let lower = to_lowercase(s);
        Self::from_lower(lower.as_str())
    }

    /// The content type that a name in lower case stands for.
    pub fn from_lower(lower: &str) -> (r: Self)
        ensures
            r == content_type_of(lower@),
    {
        if str_eq(lower, "games") {
            ContentType::Games
        } else if str_eq(lower, "apps_utilities") || str_eq(lower, "apps") {
            ContentType::AppsUtilities
        } else if str_eq(lower, "audio_cds") || str_eq(lower, "audio") {
            ContentType::AudioCDs
        } else {
            ContentType::Any
        }
    }

    /// The display name of the content type.
    pub fn display_name(&self) -> (r: &'static str)
        ensures
            r@ == match *self {
                ContentType::Any => "Any"@,
                ContentType::Games => "Games"@,
                ContentType::AppsUtilities => "Apps & Utilities"@,
                ContentType::AudioCDs => "Audio CDs"@,
            },
    {
        match self {
            ContentType::Any => "Any",
            ContentType::Games => "Games",
            ContentType::AppsUtilities => "Apps & Utilities",
            ContentType::AudioCDs => "Audio CDs",
        }
    }
}

impl Default for SearchConfig {
    /// The configuration that is used where none is given.
    fn default() -> (r: Self)
        ensures
            string_views(r.exclusion_sites@) == seq!["ebay.com"@],
            string_views(r.exclusion_platforms@) == seq!["playstation"@, "xbox"@, "nintendo"@],
            string_views(r.cd_keywords@) == seq!["CD"@, "jewel case"@],
            string_views(r.dvd_keywords@) == seq!["DVD"@],
            r.content_type == ContentType::Any,
            r.games_sites@.len() == 0,
            r.apps_sites@.len() == 0,
            r.audio_sites@.len() == 0,
            r.known_publishers@.len() == 0,
            r.user_agent is None,
    {
        let mut exclusion_sites: Vec<String> = Vec::new();
        exclusion_sites.push("ebay.com".to_owned());
        let mut exclusion_platforms: Vec<String> = Vec::new();
        exclusion_platforms.push("playstation".to_owned());
        exclusion_platforms.push("xbox".to_owned());
        exclusion_platforms.push("nintendo".to_owned());
        let mut cd_keywords: Vec<String> = Vec::new();
        cd_keywords.push("CD".to_owned());
        cd_keywords.push("jewel case".to_owned());
        let mut dvd_keywords: Vec<String> = Vec::new();
        dvd_keywords.push("DVD".to_owned());
        proof {
            assert(string_views(exclusion_sites@) =~= seq!["ebay.com"@]);
            assert(string_views(exclusion_platforms@) =~= seq![
                "playstation"@,
                "xbox"@,
                "nintendo"@,
            ]);
            assert(string_views(cd_keywords@) =~= seq!["CD"@, "jewel case"@]);
            assert(string_views(dvd_keywords@) =~= seq!["DVD"@]);
        }
        SearchConfig {
            exclusion_sites,
            exclusion_platforms,
            cd_keywords,
            dvd_keywords,
            known_publishers: Vec::new(),
            content_type: ContentType::Any,
            games_sites: Vec::new(),
            apps_sites: Vec::new(),
            audio_sites: Vec::new(),
            user_agent: None,
        }
    }
}

/// What a configuration file says about the search; a part that the
/// file leaves out is none.
#[derive(Debug, Clone)]
pub struct SearchOverrides {
    /// Sites to leave out of the results.
    pub exclusion_sites: Option<Vec<String>>,
    /// Platforms to leave out of the results.
    pub exclusion_platforms: Option<Vec<String>>,
    /// Keywords for a compact disc.
    pub cd_keywords: Option<Vec<String>>,
    /// Keywords for a DVD.
    pub dvd_keywords: Option<Vec<String>>,
    /// Publishers whose names are taken out of titles.
    pub known_publishers: Option<Vec<String>>,
    /// Name of the kind of content.
    pub content_type: Option<String>,
    /// Sites for games.
    pub games_sites: Option<Vec<String>>,
    /// Sites for applications and utilities.
    pub apps_sites: Option<Vec<String>>,
    /// Sites for audio discs.
    pub audio_sites: Option<Vec<String>>,
    /// User agent for requests.
    pub user_agent: Option<String>,
}

/// The strings that a list of a file gives, or `fallback` where the file
/// leaves the list out.
pub open spec fn list_or(given: Option<Vec<String>>, fallback: Seq<Seq<char>>) -> Seq<Seq<char>> {
    match given {
        Some(list) => string_views(list@),
        None => fallback,
    }
}

impl SearchConfig {
    /// The configuration that a file gives: each part that the file
    /// leaves out is that of the default configuration.
    pub fn from_overrides(given: SearchOverrides) -> (r: Self)
        ensures
            string_views(r.exclusion_sites@) == list_or(given.exclusion_sites, seq!["ebay.com"@]),
            string_views(r.exclusion_platforms@) == list_or(
                given.exclusion_platforms,
                seq!["playstation"@, "xbox"@, "nintendo"@],
            ),
            string_views(r.cd_keywords@) == list_or(given.cd_keywords, seq!["CD"@, "jewel case"@]),
            string_views(r.dvd_keywords@) == list_or(given.dvd_keywords, seq!["DVD"@]),
            string_views(r.known_publishers@) == list_or(given.known_publishers, Seq::empty()),
            string_views(r.games_sites@) == list_or(given.games_sites, Seq::empty()),
            string_views(r.apps_sites@) == list_or(given.apps_sites, Seq::empty()),
            string_views(r.audio_sites@) == list_or(given.audio_sites, Seq::empty()),
            r.content_type == (match given.content_type {
                Some(name) => content_type_of(lowercase_text(name@)),
                None => ContentType::Any,
            }),
            r.user_agent == given.user_agent,
    {
        let defaults = SearchConfig::default();
        let content_type = match &given.content_type {
            Some(name) => ContentType::from_str(name.as_str()),
            None => ContentType::Any,
        };
        proof {
            assert(string_views(defaults.known_publishers@) =~= Seq::<Seq<char>>::empty());
            assert(string_views(defaults.games_sites@) =~= Seq::<Seq<char>>::empty());
            assert(string_views(defaults.apps_sites@) =~= Seq::<Seq<char>>::empty());
            assert(string_views(defaults.audio_sites@) =~= Seq::<Seq<char>>::empty());
        }
        SearchConfig {
            exclusion_sites: match given.exclusion_sites {
                Some(list) => list,
                None => defaults.exclusion_sites,
            },
            exclusion_platforms: match given.exclusion_platforms {
                Some(list) => list,
                None => defaults.exclusion_platforms,
            },
            cd_keywords: match given.cd_keywords {
                Some(list) => list,
                None => defaults.cd_keywords,
            },
            dvd_keywords: match given.dvd_keywords {
                Some(list) => list,
                None => defaults.dvd_keywords,
            },
            known_publishers: match given.known_publishers {
                Some(list) => list,
                None => defaults.known_publishers,
            },
            content_type,
            games_sites: match given.games_sites {
                Some(list) => list,
                None => defaults.games_sites,
            },
            apps_sites: match given.apps_sites {
                Some(list) => list,
                None => defaults.apps_sites,
            },
            audio_sites: match given.audio_sites {
                Some(list) => list,
                None => defaults.audio_sites,
            },
            user_agent: given.user_agent,
        }
    }
}

/// Whether a file name is that of a DVD: it contains `dvd`, in any case of
/// letters.
pub open spec fn names_dvd(original_filename: Option<Seq<char>>) -> bool {
    match original_filename {
        Some(name) => contains_sub(lowercase_text(name), "dvd"@),
        None => false,
    }
}

/// The one part that a list of terms becomes: the terms joined by ` OR `;
/// no part if there are no terms.
pub open spec fn alternatives(terms: Seq<Seq<char>>) -> Seq<Seq<char>> {
    if terms.len() > 0 {
        seq![join(terms, " OR "@)]
    } else {
        Seq::empty()
    }
}

/// The known sites for a content type.
pub open spec fn known_sites(config: &SearchConfig) -> Seq<Seq<char>> {
    match config.content_type {
        ContentType::Games => string_views(config.games_sites@),
        ContentType::AppsUtilities => string_views(config.apps_sites@),
        ContentType::AudioCDs => string_views(config.audio_sites@),
        ContentType::Any => Seq::empty(),
    }
}

/// The parts of the default suffix: the keywords for CDs or DVDs, quoted,
/// as alternatives; `art`; the known sites as alternatives, or, for any
/// content, the excluded sites; and, for games and any content, the
/// excluded platforms.
pub open spec fn suffix_parts(config: &SearchConfig, dvd: bool) -> Seq<Seq<char>> {
    let keywords = if dvd {
        string_views(config.dvd_keywords@)
    } else {
        string_views(config.cd_keywords@)
    };
    let sites = if config.content_type == ContentType::Any {
        wrapped(string_views(config.exclusion_sites@), "-site:"@, ""@)
    } else {
        alternatives(wrapped(known_sites(config), "site:"@, ""@))
    };
    let platforms = if config.content_type == ContentType::Games || config.content_type
        == ContentType::Any {
        wrapped(string_views(config.exclusion_platforms@), "-\""@, "\""@)
    } else {
        Seq::empty()
    };
    alternatives(wrapped(keywords, "\""@, "\""@)) + seq!["art"@] + sites + platforms
}

/// The default suffix of a query.
pub open spec fn default_suffix(config: &SearchConfig, original_filename: Option<Seq<char>>) -> Seq<
    char,
> {
    join(suffix_parts(config, names_dvd(original_filename)), " "@)
}

/// Pattern of the places where a word in camel case is split.
pub open spec fn camel_case_pattern() -> Seq<char> {
    r"([a-z])([A-Z])|([A-Z]+)([A-Z][a-z])"@
}

/// A title with its camel case split into words.
pub open spec fn camel_split(text: Seq<char>) -> Seq<char> {
    regex_replaced_all(camel_case_pattern(), text, "${1}${3} ${2}${4}"@)
}

/// Whether a word names a platform.
pub open spec fn platform_word(word: Seq<char>) -> bool {
    eq_ignore_ascii_case(word, "Mac"@) || eq_ignore_ascii_case(word, "Macintosh"@)
        || eq_ignore_ascii_case(word, "Win"@) || eq_ignore_ascii_case(word, "Windows"@)
        || eq_ignore_ascii_case(word, "DOS"@) || eq_ignore_ascii_case(word, "PC"@)
}

/// The words that name no platform, in order.
pub open spec fn other_words(all: Seq<Seq<char>>) -> Seq<Seq<char>>
    decreases all.len(),
{
    if all.len() == 0 {
        Seq::empty()
    } else if platform_word(all.last()) {
        other_words(all.drop_last())
    } else {
        other_words(all.drop_last()).push(all.last())
    }
}

/// A title without the words that name a platform. A title of one or two
/// words is left as it is, and so is one of which fewer than two words
/// would remain.
pub open spec fn without_platforms(title: Seq<char>) -> Seq<char> {
    let all = words(title);
    if all.len() <= 2 || other_words(all).len() < 2 {
        title
    } else {
        join(other_words(all), " "@)
    }
}

/// Where a publisher stands in a title as a word of its own: the first
/// place where its name stands, in any case of letters, if the characters
/// before and after are no letters or digits.
pub open spec fn publisher_at(title: Seq<char>, publisher: Seq<char>) -> Option<int> {
    let lower = lowercase_text(title);
    let name = lowercase_text(publisher);
    match find_sub(lower, name) {
        None => None,
        Some(at) => {
            let end = at + name.len();
            if lower.len() != title.len() {
                None
            } else if (at == 0 || !is_alnum(lower[at - 1])) && (end >= lower.len() || !is_alnum(
                lower[end],
            )) {
                Some(at)
            } else {
                None
            }
        },
    }
}

/// A title without the publisher that stands at `at`, its whitespace
/// collapsed.
pub open spec fn cut_publisher(title: Seq<char>, publisher: Seq<char>, at: int) -> Seq<char> {
    collapse_spaces(title.take(at) + title.skip(at + lowercase_text(publisher).len()))
}

/// The first of the publishers, from `from` on, that stands in the title.
pub open spec fn first_publisher(title: Seq<char>, publishers: Seq<Seq<char>>, from: int) -> Option<
    int,
>
    decreases publishers.len() - from,
{
    if from < 0 || from >= publishers.len() {
        None
    } else if publisher_at(title, publishers[from]) is Some {
        Some(from)
    } else {
        first_publisher(title, publishers, from + 1)
    }
}

/// A title without the first known publisher that stands in it, and that
/// publisher.
pub open spec fn without_publisher(title: Seq<char>, publishers: Seq<Seq<char>>) -> (
    Seq<char>,
    Option<Seq<char>>,
) {
    match first_publisher(title, publishers, 0) {
        Some(k) => (
            cut_publisher(title, publishers[k], publisher_at(title, publishers[k])->0),
            Some(publishers[k]),
        ),
        None => (title, None),
    }
}

/// A title made fit for a search: camel case split, platform words and
/// the publisher taken out.
pub open spec fn processed_title(title: Seq<char>, publishers: Seq<Seq<char>>) -> (
    Seq<char>,
    Option<Seq<char>>,
) {
    without_publisher(without_platforms(camel_split(title)), publishers)
}

/// The platform that the directories of a path name.
pub open spec fn platform_of_path(path: Seq<char>) -> Option<Seq<char>> {
    let lower = lowercase_text(path);
    if contains_sub(lower, "/dos/"@) || contains_sub(lower, "\\dos\\"@) || contains_sub(
        lower,
        "/dos games/"@,
    ) {
        Some("DOS"@)
    } else if contains_sub(lower, "/pc/"@) || contains_sub(lower, "\\pc\\"@) || contains_sub(
        lower,
        "/pc games/"@,
    ) {
        Some("PC"@)
    } else if contains_sub(lower, "/macintosh/"@) || contains_sub(lower, "\\macintosh\\"@) {
        Some("Macintosh"@)
    } else if contains_sub(lower, "/mac/"@) || contains_sub(lower, "\\mac\\"@) || contains_sub(
        lower,
        "/mac games/"@,
    ) {
        Some("Mac"@)
    } else {
        None
    }
}

/// Whether a path names the Macintosh anywhere.
pub open spec fn mac_path(path: Seq<char>) -> bool {
    contains_sub(lowercase_text(path), "mac"@)
}

/// The term for a region in a query.
pub open spec fn region_term(region: Seq<char>) -> Seq<char> {
    let upper = uppercase_text(region);
    if upper == "USA"@ || upper == "NTSC-U"@ {
        "USA"@
    } else if upper == "EUROPE"@ || upper == "PAL"@ || upper == "PAL-E"@ {
        "Europe"@
    } else if upper == "JAPAN"@ || upper == "NTSC-J"@ {
        "Japan"@
    } else {
        region
    }
}

/// Whether a label reads like a title: it is longer than four bytes and
/// does not consist of upper-case letters and underscores alone.
pub open spec fn label_is_title(label: Seq<char>) -> bool {
    vstd::utf8::encode_utf8(label).len() > 4 && !(forall|i: int|
        0 <= i < label.len() ==> is_upper(#[trigger] label[i]) || label[i] == '_')
}

/// The title that a volume label gives, if it reads like one.
pub open spec fn volume_title(label: Option<Seq<char>>) -> Option<Seq<char>> {
    match label {
        Some(l) => if label_is_title(l) {
            Some(normalized_label(l))
        } else {
            None
        },
        None => None,
    }
}

/// The title and the other title of a query: the title from the volume
/// label comes first on a disc for the Macintosh, the title from the file
/// name on others; titles that are equal but for their case count once.
pub open spec fn chosen_titles(mac: bool, from_name: Seq<char>, from_volume: Option<Seq<char>>) -> (
    Seq<char>,
    Option<Seq<char>>,
) {
    match from_volume {
        Some(volume) => if lowercase_text(volume) != lowercase_text(from_name) {
            if mac {
                (volume, Some(from_name))
            } else {
                (from_name, Some(volume))
            }
        } else {
            (volume, None)
        },
        None => (from_name, None),
    }
}

/// Whether a disc is one for the Macintosh: it carries a hierarchical
/// filesystem, or its path names the Macintosh.
pub open spec fn mac_disc(info: &DiscInfo) -> bool {
    info.filesystem == FilesystemType::Hfs || info.filesystem == FilesystemType::HfsPlus || mac_path(
        info.path@,
    )
}

/// A part, if the value is there.
pub open spec fn optional_part(value: Option<Seq<char>>) -> Seq<Seq<char>> {
    match value {
        Some(v) => seq![v],
        None => Seq::empty(),
    }
}

impl ArtworkSearchQuery {
    /// The parts of a full query: the title, or the title and the other
    /// title as alternatives; the publisher; the year; the platform; the
    /// region; the suffix.
    pub open spec fn query_parts(&self) -> Seq<Seq<char>> {
        seq![
            match self.alt_title {
                Some(alt) => "\""@ + self.title@ + "\" OR \""@ + alt@ + "\""@,
                None => "\""@ + self.title@ + "\""@,
            },
        ] + optional_part(
            match self.publisher {
                Some(p) => Some("\""@ + p@ + "\""@),
                None => None,
            },
        ) + optional_part(
            match self.year {
                Some(y) => Some(decimal_text(y as nat)),
                None => None,
            },
        ) + optional_part(optional_view(self.platform)) + optional_part(
            match self.region {
                Some(r) => Some(region_term(r@)),
                None => None,
            },
        ) + seq![self.search_suffix@]
    }

    /// The text of the query: for games, the title with the platform and
    /// the site; else the parts of the full query.
    pub open spec fn query_text(&self) -> Seq<char> {
        if self.content_type == ContentType::Games {
            "\""@ + self.title@ + "\" case "@ + (if self.is_mac_game {
                "mac"@
            } else {
                "pc"@
            }) + " site:mobygames.com"@
        } else {
            join(self.query_parts(), " "@)
        }
    }

    /// The default suffix of a query.
    pub fn build_default_suffix(config: &SearchConfig, original_filename: Option<&str>) -> (r: String)
        ensures
            r@ == default_suffix(
                config,
                match original_filename {
                    Some(f) => Some(f@),
                    None => None,
                },
            ),
    {
        let is_dvd: bool = match original_filename {
            Some(f) => {
                let lower = to_lowercase(f);
                let chars = chars_of(lower.as_str());
                contains_in(chars.as_slice(), chars_of("dvd").as_slice())
            },
            None => false,
        };
        let mut parts: Vec<Vec<char>> = Vec::new();
        proof {
            assert(views(parts@) =~= Seq::<Seq<char>>::empty());
        }
        let keywords = if is_dvd {
            wrap_each(&config.dvd_keywords, "\"", "\"")
        } else {
            wrap_each(&config.cd_keywords, "\"", "\"")
        };
        let ghost wanted = suffix_parts(config, is_dvd);
        let ghost first = alternatives(views(keywords@));
        Self::push_alternatives(&mut parts, keywords);
        push_part(&mut parts, "art");
        proof {
            assert(views(parts@) =~= first + seq!["art"@]);
        }
        let ghost head = views(parts@);
        match config.content_type {
            ContentType::Any => {
                let excluded = wrap_each(&config.exclusion_sites, "-site:", "");
                append_parts(&mut parts, excluded);
            },
            ContentType::Games => {
                let sites = wrap_each(&config.games_sites, "site:", "");
                Self::push_alternatives(&mut parts, sites);
            },
            ContentType::AppsUtilities => {
                let sites = wrap_each(&config.apps_sites, "site:", "");
                Self::push_alternatives(&mut parts, sites);
            },
            ContentType::AudioCDs => {
                let sites = wrap_each(&config.audio_sites, "site:", "");
                Self::push_alternatives(&mut parts, sites);
            },
        }
        match config.content_type {
            ContentType::Games => {
                let platforms = wrap_each(&config.exclusion_platforms, "-\"", "\"");
                append_parts(&mut parts, platforms);
            },
            ContentType::Any => {
                let platforms = wrap_each(&config.exclusion_platforms, "-\"", "\"");
                append_parts(&mut parts, platforms);
            },
            _ => {
                proof {
                    assert(views(parts@) + Seq::<Seq<char>>::empty() =~= views(parts@));
                }
            },
        }
        proof {
            assert(views(parts@) =~= wanted);
        }
        let joined = join_chars(&parts, chars_of(" ").as_slice());
        string_of(joined.as_slice())
    }

    /// Appends the terms as one part, joined by ` OR `; nothing if there
    /// are no terms.
    fn push_alternatives(parts: &mut Vec<Vec<char>>, terms: Vec<Vec<char>>)
        ensures
            views(final(parts)@) == views(old(parts)@) + alternatives(views(terms@)),
    {
        let ghost start = views(parts@);
        if terms.len() > 0 {
            let joined = join_chars(&terms, chars_of(" OR ").as_slice());
            parts.push(joined);
            proof {
                assert(views(parts@) =~= start + seq![join(views(terms@), " OR "@)]);
            }
        } else {
            proof {
                assert(start + Seq::<Seq<char>>::empty() =~= start);
            }
        }
    }

    /// Splits camel case into words: `FinalFantasyVII` becomes
    /// `Final Fantasy VII`.
    pub fn split_camel_case(text: &str) -> (r: String)
        ensures
            r@ == camel_split(text@),
    {
        replace_every(r"([a-z])([A-Z])|([A-Z]+)([A-Z][a-z])", text, "${1}${3} ${2}${4}")
    }

    /// Whether a word names a platform.
    pub fn is_platform_word(word: &[char]) -> (r: bool)
        ensures
            r == platform_word(word@),
    {
        eq_ignoring_ascii_case(word, chars_of("Mac").as_slice()) || eq_ignoring_ascii_case(
            word,
            chars_of("Macintosh").as_slice(),
        ) || eq_ignoring_ascii_case(word, chars_of("Win").as_slice()) || eq_ignoring_ascii_case(
            word,
            chars_of("Windows").as_slice(),
        ) || eq_ignoring_ascii_case(word, chars_of("DOS").as_slice()) || eq_ignoring_ascii_case(
            word,
            chars_of("PC").as_slice(),
        )
    }

    /// Takes the words that name a platform out of a title, if enough
    /// other words remain.
    pub fn remove_platform_keywords(title: &str) -> (r: String)
        ensures
            r@ == without_platforms(title@),
    {
        let chars = chars_of(title);
        let all = split_words(chars.as_slice());
        if all.len() <= 2 {
            return title.to_owned();
        }
        let mut kept: Vec<Vec<char>> = Vec::new();
        let mut i: usize = 0;
        proof {
            assert(views(all@).take(0) =~= Seq::<Seq<char>>::empty());
            assert(views(kept@) =~= Seq::<Seq<char>>::empty());
        }
        while i < all.len()
            invariant
                i <= all@.len(),
                views(kept@) == other_words(views(all@).take(i as int)),
            decreases all@.len() - i,
        {
            proof {
                let now = views(all@).take(i + 1);
                assert(now.drop_last() =~= views(all@).take(i as int));
                assert(now.last() == all@[i as int]@);
            }
            if !Self::is_platform_word(all[i].as_slice()) {
                let word = copy_range(all[i].as_slice(), 0, all[i].len());
                proof {
                    assert(word@ =~= all@[i as int]@);
                    assert(views(kept@.push(word)) =~= views(kept@).push(word@));
                }
                kept.push(word);
            }
            i = i + 1;
        }
        proof {
            assert(views(all@).take(i as int) =~= views(all@));
        }
        if kept.len() >= 2 {
            let joined = join_chars(&kept, chars_of(" ").as_slice());
            string_of(joined.as_slice())
        } else {
            title.to_owned()
        }
    }

    /// Finds where a publisher stands in a title as a word of its own.
    pub fn find_publisher(title: &str, publisher: &str) -> (r: Option<usize>)
        ensures
            match r {
                Some(at) => publisher_at(title@, publisher@) == Some(at as int) && at
                    + lowercase_text(publisher@).len() <= title@.len(),
                None => publisher_at(title@, publisher@) is None,
            },
    {
        let lower = chars_of(to_lowercase(title).as_str());
        let name = chars_of(to_lowercase(publisher).as_str());
        let original = chars_of(title);
        match find_in(lower.as_slice(), name.as_slice()) {
            None => None,
            Some(at) => {
                if lower.len() != original.len() {
                    return None;
                }
                let end: usize = at + name.len();
                let starts: bool = at == 0 || !char_is_alnum(lower[at - 1]);
                let ends: bool = end >= lower.len() || !char_is_alnum(lower[end]);
                if starts && ends {
                    Some(at)
                } else {
                    None
                }
            },
        }
    }

    /// Takes the first known publisher that stands in the title out of it.
    pub fn remove_publishers(title: &str, config: &SearchConfig) -> (r: (String, Option<String>))
        ensures
            (r.0@, optional_view(r.1)) == without_publisher(
                title@,
                string_views(config.known_publishers@),
            ),
    {
        let ghost names = string_views(config.known_publishers@);
        let mut k: usize = 0;
        while k < config.known_publishers.len()
            invariant
                k <= config.known_publishers@.len(),
                names == string_views(config.known_publishers@),
                first_publisher(title@, names, 0) == first_publisher(title@, names, k as int),
            decreases config.known_publishers@.len() - k,
        {
            let publisher = &config.known_publishers[k];
            proof {
                assert(names[k as int] == publisher@);
            }
            match Self::find_publisher(title, publisher.as_str()) {
                Some(at) => {
                    let chars = chars_of(title);
                    let total: usize = chars.len();
                    let width: usize = chars_of(to_lowercase(publisher.as_str()).as_str()).len();
                    let mut rest = copy_range(chars.as_slice(), 0, at);
                    let tail = copy_range(chars.as_slice(), at + width, chars.len());
                    rest.extend_from_slice(tail.as_slice());
                    proof {
                        assert(rest@ =~= title@.take(at as int) + title@.skip(at + width));
                    }
                    let cleaned = collapse_space_chars(rest.as_slice());
                    return (string_of(cleaned.as_slice()), Some(publisher.clone()));
                },
                None => {},
            }
            k = k + 1;
        }
        (title.to_owned(), None)
    }

    /// Makes a title fit for a search.
    pub fn process_title(title: &str, config: &SearchConfig) -> (r: (String, Option<String>))
        ensures
            (r.0@, optional_view(r.1)) == processed_title(
                title@,
                string_views(config.known_publishers@),
            ),
    {
        let split = Self::split_camel_case(title);
        let plain = Self::remove_platform_keywords(split.as_str());
        Self::remove_publishers(plain.as_str(), config)
    }

    /// A query from what a file name says, with the default configuration.
    pub fn from_parsed_filename(parsed: &ParsedFilename) -> (r: Self)
        ensures
            (r.title@, optional_view(r.publisher)) == processed_title(parsed.title@, Seq::empty()),
            r.region == parsed.region,
            r.year == parsed.year,
            r.alt_title is None,
            r.platform is None,
            optional_view(r.original_filename) == Some(parsed.original@),
            !r.is_mac_game,
            r.content_type == ContentType::Any,
    {
        let config = SearchConfig::default();
        proof {
            assert(string_views(config.known_publishers@) =~= Seq::<Seq<char>>::empty());
        }
        Self::from_parsed_filename_with_config(parsed, &config)
    }

    /// A query from what a file name says.
    pub fn from_parsed_filename_with_config(parsed: &ParsedFilename, config: &SearchConfig) -> (r: Self)
        ensures
            (r.title@, optional_view(r.publisher)) == processed_title(
                parsed.title@,
                string_views(config.known_publishers@),
            ),
            r.alt_title is None,
            r.region == parsed.region,
            r.platform is None,
            r.year == parsed.year,
            r.search_suffix@ == default_suffix(config, Some(parsed.original@)),
            optional_view(r.original_filename) == Some(parsed.original@),
            !r.is_mac_game,
            r.content_type == config.content_type,
    {
        let (title, publisher) = Self::process_title(parsed.title.as_str(), config);
        ArtworkSearchQuery {
            title,
            alt_title: None,
            region: parsed.region.clone(),
            platform: None,
            year: parsed.year,
            search_suffix: Self::build_default_suffix(config, Some(parsed.original.as_str())),
            publisher,
            original_filename: Some(parsed.original.clone()),
            is_mac_game: false,
            content_type: config.content_type,
        }
    }

    /// Decides whether a label reads like a title.
    pub fn label_reads_as_title(label: &str) -> (r: bool)
        ensures
            r == label_is_title(label@),
    {
        let bytes = label.as_bytes();
        if bytes.len() <= 4 {
            return false;
        }
        let chars = chars_of(label);
        let mut i: usize = 0;
        while i < chars.len()
            invariant
                i <= chars@.len(),
                chars@ == label@,
                vstd::utf8::encode_utf8(label@).len() > 4,
                forall|k: int| 0 <= k < i ==> is_upper(#[trigger] chars@[k]) || chars@[k] == '_',
            decreases chars@.len() - i,
        {
            let c: char = chars[i];
            if !(char_is_upper(c) || c == '_') {
                proof {
                    assert(!(is_upper(chars@[i as int]) || chars@[i as int] == '_'));
                }
                return true;
            }
            i = i + 1;
        }
        false
    }

    /// A query from what is known about a disc, with the default
    /// configuration.
    pub fn from_disc_info(info: &DiscInfo) -> (r: Self)
        ensures
            r.is_mac_game == mac_disc(info),
            r.region == info.parsed_filename.region,
            r.year == info.parsed_filename.year,
            optional_view(r.platform) == platform_of_path(info.path@),
            r.content_type == ContentType::Any,
            (r.title@, optional_view(r.alt_title)) == chosen_titles(
                mac_disc(info),
                processed_title(info.parsed_filename.title@, Seq::empty()).0,
                match volume_title(optional_view(info.volume_label)) {
                    Some(v) => Some(processed_title(v, Seq::empty()).0),
                    None => None,
                },
            ),
    {
        let config = SearchConfig::default();
        proof {
            assert(string_views(config.known_publishers@) =~= Seq::<Seq<char>>::empty());
        }
        Self::from_disc_info_with_config(info, &config)
    }

    /// A query from what is known about a disc.
    pub fn from_disc_info_with_config(info: &DiscInfo, config: &SearchConfig) -> (r: Self)
        ensures
            r.is_mac_game == mac_disc(info),
            (r.title@, optional_view(r.alt_title)) == chosen_titles(
                mac_disc(info),
                processed_title(
                    info.parsed_filename.title@,
                    string_views(config.known_publishers@),
                ).0,
                match volume_title(optional_view(info.volume_label)) {
                    Some(v) => Some(
                        processed_title(v, string_views(config.known_publishers@)).0,
                    ),
                    None => None,
                },
            ),
            optional_view(r.publisher) == processed_title(
                info.parsed_filename.title@,
                string_views(config.known_publishers@),
            ).1,
            r.region == info.parsed_filename.region,
            optional_view(r.platform) == platform_of_path(info.path@),
            r.year == info.parsed_filename.year,
            r.search_suffix@ == default_suffix(config, Some(info.parsed_filename.original@)),
            optional_view(r.original_filename) == Some(info.parsed_filename.original@),
            r.content_type == config.content_type,
    {
        let is_mac_game: bool = match info.filesystem {
            FilesystemType::Hfs => true,
            FilesystemType::HfsPlus => true,
            _ => is_mac_path(info.path.as_str()),
        };
        let from_volume: Option<String> = match &info.volume_label {
            Some(label) => {
                if Self::label_reads_as_title(label.as_str()) {
                    let normal = normalize_volume_label(label.as_str());
                    let (processed, _) = Self::process_title(normal.as_str(), config);
                    Some(processed)
                } else {
                    None
                }
            },
            None => None,
        };
        let (from_name, publisher) = Self::process_title(info.parsed_filename.title.as_str(), config);
        let title: String;
        let alt_title: Option<String>;
        match from_volume {
            Some(volume) => {
                let a = to_lowercase(volume.as_str());
                let b = to_lowercase(from_name.as_str());
                if !str_eq(a.as_str(), b.as_str()) {
                    if is_mac_game {
                        title = volume;
                        alt_title = Some(from_name);
                    } else {
                        title = from_name;
                        alt_title = Some(volume);
                    }
                } else {
                    title = volume;
                    alt_title = None;
                }
            },
            None => {
                title = from_name;
                alt_title = None;
            },
        }
        ArtworkSearchQuery {
            title,
            alt_title,
            region: info.parsed_filename.region.clone(),
            platform: detect_platform_from_path(info.path.as_str()),
            year: info.parsed_filename.year,
            search_suffix: Self::build_default_suffix(
                config,
                Some(info.parsed_filename.original.as_str()),
            ),
            publisher,
            original_filename: Some(info.parsed_filename.original.clone()),
            is_mac_game,
            content_type: config.content_type,
        }
    }

    /// Sets the platform hint.
    pub fn with_platform(self, platform: &str) -> (r: Self)
        ensures
            optional_view(r.platform) == Some(platform@),
            r == (ArtworkSearchQuery { platform: r.platform, ..self }),
    {
        let mut query = self;
        query.platform = Some(platform.to_owned());
        query
    }

    /// Sets the publisher.
    pub fn with_publisher(self, publisher: &str) -> (r: Self)
        ensures
            optional_view(r.publisher) == Some(publisher@),
            r == (ArtworkSearchQuery { publisher: r.publisher, ..self }),
    {
        let mut query = self;
        query.publisher = Some(publisher.to_owned());
        query
    }

    /// Sets the suffix.
    pub fn with_suffix(self, suffix: &str) -> (r: Self)
        ensures
            r.search_suffix@ == suffix@,
            r == (ArtworkSearchQuery { search_suffix: r.search_suffix, ..self }),
    {
        let mut query = self;
        query.search_suffix = suffix.to_owned();
        query
    }

    /// The term for a region in a query.
    pub fn region_search_term(region: &str) -> (r: String)
        ensures
            r@ == region_term(region@),
    {
        let upper = to_uppercase(region);
        if str_eq(upper.as_str(), "USA") || str_eq(upper.as_str(), "NTSC-U") {
            "USA".to_owned()
        } else if str_eq(upper.as_str(), "EUROPE") || str_eq(upper.as_str(), "PAL") || str_eq(
            upper.as_str(),
            "PAL-E",
        ) {
            "Europe".to_owned()
        } else if str_eq(upper.as_str(), "JAPAN") || str_eq(upper.as_str(), "NTSC-J") {
            "Japan".to_owned()
        } else {
            region.to_owned()
        }
    }

    /// Builds the text of the query.
    pub fn build_query(&self) -> (r: String)
        ensures
            r@ == self.query_text(),
    {
        match self.content_type {
            ContentType::Games => {
                let platform: &str = if self.is_mac_game {
                    "mac"
                } else {
                    "pc"
                };
                let head = concat3("\"", self.title.as_str(), "\" case ");
                return concat3(head.as_str(), platform, " site:mobygames.com");
            },
            _ => {},
        }
        let mut parts: Vec<Vec<char>> = Vec::new();
        proof {
            assert(views(parts@) =~= Seq::<Seq<char>>::empty());
        }
        let first: String = match &self.alt_title {
            Some(alt) => {
                let a = concat3("\"", self.title.as_str(), "\" OR \"");
                concat3(a.as_str(), alt.as_str(), "\"")
            },
            None => concat3("\"", self.title.as_str(), "\""),
        };
        push_part(&mut parts, first.as_str());
        match &self.publisher {
            Some(p) => {
                let quoted = concat3("\"", p.as_str(), "\"");
                push_part(&mut parts, quoted.as_str());
            },
            None => {},
        }
        match self.year {
            Some(y) => {
                let digits = decimal_chars(y as u64);
                let ghost before = views(parts@);
                parts.push(digits);
                proof {
                    assert(views(parts@) =~= before.push(decimal_text(y as nat)));
                }
            },
            None => {},
        }
        match &self.platform {
            Some(p) => {
                push_part(&mut parts, p.as_str());
            },
            None => {},
        }
        match &self.region {
            Some(region) => {
                let term = Self::region_search_term(region.as_str());
                push_part(&mut parts, term.as_str());
            },
            None => {},
        }
        push_part(&mut parts, self.search_suffix.as_str());
        proof {
            assert(views(parts@) =~= self.query_parts());
        }
        let joined = join_chars(&parts, chars_of(" ").as_slice());
        string_of(joined.as_slice())
    }

    /// The address of a search for square images at Google.
    pub fn google_images_url(&self) -> (r: String)
        ensures
            r@ == "https://www.google.com/search?tbm=isch&tbs=iar:s&q="@ + url_encoded(
                self.query_text(),
            ),
    {
        let query = self.build_query();
        let encoded = url_encode(query.as_str());
        concat2("https://www.google.com/search?tbm=isch&tbs=iar:s&q=", encoded.as_str())
    }

    /// The address of a search for square images at DuckDuckGo.
    pub fn duckduckgo_images_url(&self) -> (r: String)
        ensures
            r@ == "https://duckduckgo.com/?t=h_&iax=images&ia=images&iaf=size:Square&q="@
                + url_encoded(self.query_text()),
    {
        let query = self.build_query();
        let encoded = url_encode(query.as_str());
        concat2(
            "https://duckduckgo.com/?t=h_&iax=images&ia=images&iaf=size:Square&q=",
            encoded.as_str(),
        )
    }
}

/// Finds the platform that the directories of a path name.
pub fn detect_platform_from_path(path: &str) -> (r: Option<String>)
    ensures
        optional_view(r) == platform_of_path(path@),
{
    let lower = chars_of(to_lowercase(path).as_str());
    let s = lower.as_slice();
    if contains_in(s, chars_of("/dos/").as_slice()) || contains_in(s, chars_of("\\dos\\").as_slice())
        || contains_in(s, chars_of("/dos games/").as_slice()) {
        Some("DOS".to_owned())
    } else if contains_in(s, chars_of("/pc/").as_slice()) || contains_in(
        s,
        chars_of("\\pc\\").as_slice(),
    ) || contains_in(s, chars_of("/pc games/").as_slice()) {
        Some("PC".to_owned())
    } else if contains_in(s, chars_of("/macintosh/").as_slice()) || contains_in(
        s,
        chars_of("\\macintosh\\").as_slice(),
    ) {
        Some("Macintosh".to_owned())
    } else if contains_in(s, chars_of("/mac/").as_slice()) || contains_in(
        s,
        chars_of("\\mac\\").as_slice(),
    ) || contains_in(s, chars_of("/mac games/").as_slice()) {
        Some("Mac".to_owned())
    } else {
        None
    }
}

/// Whether a path names the Macintosh anywhere.
pub fn is_mac_path(path: &str) -> (r: bool)
    ensures
        r == mac_path(path@),
{
    let lower = chars_of(to_lowercase(path).as_str());
    contains_in(lower.as_slice(), chars_of("mac").as_slice())
}

} // verus!
