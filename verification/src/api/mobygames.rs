//! Covers at MobyGames: what a cover says and which cover is the best.

use vstd::prelude::*;
use crate::text::search::{
    contains_in, contains_sub, find_in, find_sub, replace_in, replace_sub,
};
use crate::pattern::{all_captures, capture_views, regex_all_captures};
use crate::text::trim::{trim, trim_chars};
use crate::config::{strip_trailing_slashes, without_trailing_slashes};
use crate::search::ImageResult;
use crate::text::{
    chars_of, concat2, concat3, copy_range, lowercase_text, str_eq, string_of, string_views,
    to_lowercase,
};

verus! {

/// What is known about one cover.
#[derive(Debug, Clone)]
pub struct CoverInfo {
    /// Platform, such as "DOS" or "Windows".
    pub platform: String,
    /// Country or region, such as "United States".
    pub country: String,
    /// Kind of cover, such as "Front Cover".
    pub cover_type: String,
    /// Address of the thumbnail.
    pub thumbnail_url: String,
    /// Address of the image in full size.
    pub full_url: String,
}

/// The platforms in the order in which their covers are preferred.
pub open spec fn platform_priority() -> Seq<Seq<char>> {
    seq!["DOS"@, "Windows"@, "Windows 3.x"@, "Macintosh"@, "Linux"@, "PC-98"@, "Amiga"@]
}

/// The platform and the country that a description of a cover names:
/// `Platform (Country)`, `Platform - Kind` or `Platform / Country`; a
/// description without a country names the country `Unknown`.
pub open spec fn cover_info_of(info: Seq<char>) -> (Seq<char>, Seq<char>) {
    let text = trim(info);
    if find_sub(text, "("@) is Some && find_sub(text, ")"@) is Some && find_sub(text, "("@)->0
        < find_sub(text, ")"@)->0 {
        (
            trim(text.take(find_sub(text, "("@)->0)),
            trim(text.subrange(find_sub(text, "("@)->0 + 1, find_sub(text, ")"@)->0)),
        )
    } else if find_sub(text, " - "@) is Some {
        (trim(text.take(find_sub(text, " - "@)->0)), "Unknown"@)
    } else if find_sub(text, " / "@) is Some {
        (
            trim(text.take(find_sub(text, " / "@)->0)),
            trim(text.skip(find_sub(text, " / "@)->0 + 3)),
        )
    } else {
        (text, "Unknown"@)
    }
}

/// The address of the image in full size for the address of a thumbnail:
/// `small` and `medium` in the path become `large`; else a query string is
/// cut off.
pub open spec fn full_url_of(thumbnail_url: Seq<char>) -> Seq<char> {
    if contains_sub(thumbnail_url, "/small/"@) {
        replace_sub(thumbnail_url, "/small/"@, "/large/"@)
    } else if contains_sub(thumbnail_url, "/medium/"@) {
        replace_sub(thumbnail_url, "/medium/"@, "/large/"@)
    } else {
        match find_sub(thumbnail_url, "?"@) {
            Some(at) => thumbnail_url.take(at),
            None => thumbnail_url,
        }
    }
}

/// Whether the cover is a front cover.
pub open spec fn is_front(cover: CoverInfo) -> bool {
    contains_sub(lowercase_text(cover.cover_type@), "front"@)
}

/// Whether the cover is from an English-speaking market.
pub open spec fn is_english(cover: CoverInfo) -> bool {
    contains_sub(cover.country@, "United States"@) || contains_sub(
        cover.country@,
        "United Kingdom"@,
    ) || contains_sub(cover.country@, "World"@)
}

/// Whether the cover is for the given platform.
pub open spec fn on_platform(cover: CoverInfo, platform: Seq<char>) -> bool {
    contains_sub(lowercase_text(cover.platform@), lowercase_text(platform))
}

/// Whether the cover passes the filter of a round. Round 1 asks for a
/// front cover of the platform from an English-speaking market or of
/// unknown country, round 2 for a front cover from an English-speaking
/// market, round 3 for a front cover of the platform, round 4 for a front
/// cover.
pub open spec fn passes(cover: CoverInfo, round: int, platform: Seq<char>) -> bool {
    if round == 1 {
        on_platform(cover, platform) && (is_english(cover) || cover.country@ == "Unknown"@)
            && is_front(cover)
    } else if round == 2 {
        is_english(cover) && is_front(cover)
    } else if round == 3 {
        on_platform(cover, platform) && is_front(cover)
    } else {
        is_front(cover)
    }
}

/// The first cover, at or after `from`, that passes the filter.
pub open spec fn first_passing(covers: Seq<CoverInfo>, round: int, platform: Seq<char>, from: int) -> Option<
    int,
>
    decreases covers.len() - from,
{
    if from < 0 || from >= covers.len() {
        None
    } else if passes(covers[from], round, platform) {
        Some(from)
    } else {
        first_passing(covers, round, platform, from + 1)
    }
}

/// The first cover that passes the filter for a platform, the platforms
/// taken in order of preference from `from` on.
pub open spec fn first_by_platform(covers: Seq<CoverInfo>, round: int, from: int) -> Option<int>
    decreases platform_priority().len() - from,
{
    if from < 0 || from >= platform_priority().len() {
        None
    } else {
        match first_passing(covers, round, platform_priority()[from], 0) {
            Some(k) => Some(k),
            None => first_by_platform(covers, round, from + 1),
        }
    }
}

/// The best cover: the first that a round finds, the rounds taken in
/// order. A cover that is no front cover is never chosen.
pub open spec fn best_cover(covers: Seq<CoverInfo>) -> Option<int> {
    if first_by_platform(covers, 1, 0) is Some {
        first_by_platform(covers, 1, 0)
    } else if first_passing(covers, 2, Seq::empty(), 0) is Some {
        first_passing(covers, 2, Seq::empty(), 0)
    } else if first_by_platform(covers, 3, 0) is Some {
        first_by_platform(covers, 3, 0)
    } else {
        first_passing(covers, 4, Seq::empty(), 0)
    }
}

/// Parses the description of a cover into platform and country.
pub fn parse_cover_info(info: &str) -> (r: (String, String))
    ensures
        (r.0@, r.1@) == cover_info_of(info@),
{
    let raw = chars_of(info);
    let text = trim_chars(raw.as_slice());
    let total: usize = text.len();
    let open = find_in(text.as_slice(), chars_of("(").as_slice());
    let close = find_in(text.as_slice(), chars_of(")").as_slice());
    match (open, close) {
        (Some(start), Some(end)) => {
            if start < end {
                let platform = trim_chars(copy_range(text.as_slice(), 0, start).as_slice());
                let country = trim_chars(copy_range(text.as_slice(), start + 1, end).as_slice());
                proof {
                    assert(text@.take(start as int) =~= text@.subrange(0, start as int));
                }
                return (string_of(platform.as_slice()), string_of(country.as_slice()));
            }
        },
        _ => {},
    }
    match find_in(text.as_slice(), chars_of(" - ").as_slice()) {
        Some(at) => {
            let platform = trim_chars(copy_range(text.as_slice(), 0, at).as_slice());
            proof {
                assert(text@.take(at as int) =~= text@.subrange(0, at as int));
            }
            return (string_of(platform.as_slice()), "Unknown".to_owned());
        },
        None => {},
    }
    let slash = chars_of(" / ");
    proof {
        reveal_strlit(" / ");
        assert(slash@.len() == 3);
    }
    match find_in(text.as_slice(), slash.as_slice()) {
        Some(at) => {
            let platform = trim_chars(copy_range(text.as_slice(), 0, at).as_slice());
            let country = trim_chars(copy_range(text.as_slice(), at + 3, total).as_slice());
            proof {
                assert(text@.take(at as int) =~= text@.subrange(0, at as int));
                assert(text@.skip(at + 3) =~= text@.subrange(at + 3, total as int));
            }
            return (string_of(platform.as_slice()), string_of(country.as_slice()));
        },
        None => {},
    }
    (string_of(text.as_slice()), "Unknown".to_owned())
}

/// The address of the image in full size for the address of a thumbnail.
pub fn thumbnail_to_full_url(thumbnail_url: &str) -> (r: String)
    ensures
        r@ == full_url_of(thumbnail_url@),
{
    let url = chars_of(thumbnail_url);
    let large = chars_of("/large/");
    let small = chars_of("/small/");
    let medium = chars_of("/medium/");
    if contains_in(url.as_slice(), small.as_slice()) {
        let out = replace_in(url.as_slice(), small.as_slice(), large.as_slice());
        return string_of(out.as_slice());
    }
    if contains_in(url.as_slice(), medium.as_slice()) {
        let out = replace_in(url.as_slice(), medium.as_slice(), large.as_slice());
        return string_of(out.as_slice());
    }
    match find_in(url.as_slice(), chars_of("?").as_slice()) {
        Some(at) => {
            let out = copy_range(url.as_slice(), 0, at);
            proof {
                assert(url@.take(at as int) =~= url@.subrange(0, at as int));
            }
            string_of(out.as_slice())
        },
        None => thumbnail_url.to_owned(),
    }
}

/// A cover as plain text.
pub struct CoverModel {
    /// Platform.
    pub platform: Seq<char>,
    /// Country or region.
    pub country: Seq<char>,
    /// Kind of cover.
    pub cover_type: Seq<char>,
    /// Address of the thumbnail.
    pub thumbnail_url: Seq<char>,
    /// Address of the image in full size.
    pub full_url: Seq<char>,
}

impl View for CoverInfo {
    type V = CoverModel;

    open spec fn view(&self) -> CoverModel {
        CoverModel {
            platform: self.platform@,
            country: self.country@,
            cover_type: self.cover_type@,
            thumbnail_url: self.thumbnail_url@,
            full_url: self.full_url@,
        }
    }
}

/// The covers of a list as plain text.
pub open spec fn cover_models(covers: Seq<CoverInfo>) -> Seq<CoverModel> {
    Seq::new(covers.len(), |i: int| covers[i]@)
}

/// Pattern of a cover heading followed by an image.
pub open spec fn heading_pattern() -> Seq<char> {
    r#"(?s)<div[^>]*class="[^"]*coverHeading[^"]*"[^>]*>([^<]+)</div>.*?<img[^>]*src="([^"]+)"#@
}

/// Pattern of an image of the content network with its description.
pub open spec fn image_pattern() -> Seq<char> {
    r#"<img[^>]*src="(https://cdn\.mobygames\.com/[^"]+)"[^>]*alt="([^"]*)"#@
}

/// Pattern of the address of a cover on the content network.
pub open spec fn address_pattern() -> Seq<char> {
    r#"https://cdn\.mobygames\.com/[a-f0-9\-]+/covers/[^"'\s]+"#@
}

/// The text of group `k` of a match, if the group took part.
pub open spec fn group_text(groups: Seq<Option<Seq<char>>>, k: int) -> Option<Seq<char>> {
    if 0 <= k < groups.len() {
        groups[k]
    } else {
        None
    }
}

/// A cover with the given labels for a thumbnail.
pub open spec fn cover_for(
    labels: (Seq<char>, Seq<char>),
    cover_type: Seq<char>,
    thumbnail_url: Seq<char>,
) -> CoverModel {
    CoverModel {
        platform: labels.0,
        country: labels.1,
        cover_type,
        thumbnail_url,
        full_url: full_url_of(thumbnail_url),
    }
}

/// The cover of a heading match: the heading, trimmed, gives platform and
/// country, the image is the thumbnail, and the cover is a front cover.
pub open spec fn heading_cover(groups: Seq<Option<Seq<char>>>) -> Option<CoverModel> {
    match (group_text(groups, 1), group_text(groups, 2)) {
        (Some(info), Some(image)) => Some(
            cover_for(cover_info_of(trim(info)), "Front Cover"@, image),
        ),
        _ => None,
    }
}

/// The cover of an image match: none unless the description, in lower
/// case, holds "cover" or the address holds "/covers/"; a back cover if
/// the description holds "back".
pub open spec fn image_cover(groups: Seq<Option<Seq<char>>>) -> Option<CoverModel> {
    match (group_text(groups, 1), group_text(groups, 2)) {
        (Some(image), Some(alt)) => {
            if !contains_sub(lowercase_text(alt), "cover"@) && !contains_sub(image, "/covers/"@) {
                None
            } else {
                Some(
                    cover_for(
                        cover_info_of(alt),
                        if contains_sub(lowercase_text(alt), "back"@) {
                            "Back Cover"@
                        } else {
                            "Front Cover"@
                        },
                        image,
                    ),
                )
            }
        },
        _ => None,
    }
}

/// The cover of an address match: a front cover of which nothing else is
/// known.
pub open spec fn address_cover(groups: Seq<Option<Seq<char>>>) -> Option<CoverModel> {
    match group_text(groups, 0) {
        Some(address) => Some(cover_for(("Unknown"@, "Unknown"@), "Front Cover"@, address)),
        None => None,
    }
}

/// The covers that `pick` makes of the matches, in their order.
pub open spec fn gathered(
    matches: Seq<Seq<Option<Seq<char>>>>,
    pick: spec_fn(Seq<Option<Seq<char>>>) -> Option<CoverModel>,
) -> Seq<CoverModel>
    decreases matches.len(),
{
    if matches.len() == 0 {
        Seq::empty()
    } else {
        let rest = gathered(matches.drop_last(), pick);
        match pick(matches.last()) {
            Some(cover) => rest.push(cover),
            None => rest,
        }
    }
}

/// The covers of a page, from the three kinds of matches: those of the
/// headings; if there are none, those of the images; if there are none
/// either, those of the addresses.
pub open spec fn covers_of_matches(
    headings: Seq<Seq<Option<Seq<char>>>>,
    images: Seq<Seq<Option<Seq<char>>>>,
    addresses: Seq<Seq<Option<Seq<char>>>>,
) -> Seq<CoverModel> {
    if gathered(headings, |g| heading_cover(g)).len() > 0 {
        gathered(headings, |g| heading_cover(g))
    } else if gathered(images, |g| image_cover(g)).len() > 0 {
        gathered(images, |g| image_cover(g))
    } else {
        gathered(addresses, |g| address_cover(g))
    }
}

/// The covers of a page; none where a pattern is refused.
pub open spec fn covers_of_page(html: Seq<char>) -> Option<Seq<CoverModel>> {
    match (
        regex_all_captures(heading_pattern(), html),
        regex_all_captures(image_pattern(), html),
        regex_all_captures(address_pattern(), html),
    ) {
        (Some(headings), Some(images), Some(addresses)) => Some(
            covers_of_matches(headings, images, addresses),
        ),
        _ => None,
    }
}

/// The text of group `k` of a match.
fn group_of(groups: &Vec<Option<String>>, k: usize) -> (r: Option<&String>)
    ensures
        match r {
            Some(s) => group_text(capture_views(seq![*groups])[0], k as int) == Some(s@),
            None => group_text(capture_views(seq![*groups])[0], k as int) is None,
        },
{
    if k < groups.len() {
        match &groups[k] {
            Some(s) => Some(s),
            None => None,
        }
    } else {
        None
    }
}

/// A cover with the given labels for a thumbnail.
fn make_cover(labels: (String, String), cover_type: &str, thumbnail_url: &str) -> (r: CoverInfo)
    ensures
        r@ == cover_for((labels.0@, labels.1@), cover_type@, thumbnail_url@),
{
    CoverInfo {
        platform: labels.0,
        country: labels.1,
        cover_type: cover_type.to_owned(),
        thumbnail_url: thumbnail_url.to_owned(),
        full_url: thumbnail_to_full_url(thumbnail_url),
    }
}

/// The cover of one heading match.
pub fn cover_of_heading(groups: &Vec<Option<String>>) -> (r: Option<CoverInfo>)
    ensures
        match r {
            Some(c) => heading_cover(capture_views(seq![*groups])[0]) == Some(c@),
            None => heading_cover(capture_views(seq![*groups])[0]) is None,
        },
{
    match (group_of(groups, 1), group_of(groups, 2)) {
        (Some(info), Some(image)) => {
            let trimmed = trim_chars(chars_of(info.as_str()).as_slice());
            let text = string_of(trimmed.as_slice());
            Some(make_cover(parse_cover_info(text.as_str()), "Front Cover", image.as_str()))
        },
        _ => None,
    }
}

/// The cover of one image match.
pub fn cover_of_image(groups: &Vec<Option<String>>) -> (r: Option<CoverInfo>)
    ensures
        match r {
            Some(c) => image_cover(capture_views(seq![*groups])[0]) == Some(c@),
            None => image_cover(capture_views(seq![*groups])[0]) is None,
        },
{
    match (group_of(groups, 1), group_of(groups, 2)) {
        (Some(image), Some(alt)) => {
            let lower = chars_of(to_lowercase(alt.as_str()).as_str());
            let address = chars_of(image.as_str());
            if !contains_in(lower.as_slice(), chars_of("cover").as_slice()) && !contains_in(
                address.as_slice(),
                chars_of("/covers/").as_slice(),
            ) {
                return None;
            }
            let kind: &str = if contains_in(lower.as_slice(), chars_of("back").as_slice()) {
                "Back Cover"
            } else {
                "Front Cover"
            };
            Some(make_cover(parse_cover_info(alt.as_str()), kind, image.as_str()))
        },
        _ => None,
    }
}

/// The cover of one address match.
pub fn cover_of_address(groups: &Vec<Option<String>>) -> (r: Option<CoverInfo>)
    ensures
        match r {
            Some(c) => address_cover(capture_views(seq![*groups])[0]) == Some(c@),
            None => address_cover(capture_views(seq![*groups])[0]) is None,
        },
{
    match group_of(groups, 0) {
        Some(address) => Some(
            make_cover(("Unknown".to_owned(), "Unknown".to_owned()), "Front Cover", address.as_str()),
        ),
        None => None,
    }
}

/// The covers of the three kinds of matches of a page.
pub fn covers_from_matches(
    headings: &Vec<Vec<Option<String>>>,
    images: &Vec<Vec<Option<String>>>,
    addresses: &Vec<Vec<Option<String>>>,
) -> (r: Vec<CoverInfo>)
    ensures
        cover_models(r@) == covers_of_matches(
            capture_views(headings@),
            capture_views(images@),
            capture_views(addresses@),
        ),
{
    let mut out: Vec<CoverInfo> = Vec::new();
    let mut i: usize = 0;
    while i < headings.len()
        invariant
            i <= headings@.len(),
            cover_models(out@) == gathered(
                capture_views(headings@).take(i as int),
                |g| heading_cover(g),
            ),
        decreases headings@.len() - i,
    {
        let ghost before = out@;
        let found = cover_of_heading(&headings[i]);
        proof {
            let all = capture_views(headings@);
            assert(all.take(i + 1).drop_last() =~= all.take(i as int));
            assert(capture_views(seq![headings@[i as int]])[0] =~= all[i as int]);
        }
        match found {
            Some(c) => {
                out.push(c);
                assert(cover_models(out@) =~= cover_models(before).push(c@));
            },
            None => {},
        }
        i = i + 1;
    }
    assert(capture_views(headings@).take(i as int) =~= capture_views(headings@));
    if out.len() > 0 {
        return out;
    }
    let mut i: usize = 0;
    while i < images.len()
        invariant
            i <= images@.len(),
            cover_models(out@) == gathered(
                capture_views(images@).take(i as int),
                |g| image_cover(g),
            ),
        decreases images@.len() - i,
    {
        let ghost before = out@;
        let found = cover_of_image(&images[i]);
        proof {
            let all = capture_views(images@);
            assert(all.take(i + 1).drop_last() =~= all.take(i as int));
            assert(capture_views(seq![images@[i as int]])[0] =~= all[i as int]);
        }
        match found {
            Some(c) => {
                out.push(c);
                assert(cover_models(out@) =~= cover_models(before).push(c@));
            },
            None => {},
        }
        i = i + 1;
    }
    assert(capture_views(images@).take(i as int) =~= capture_views(images@));
    if out.len() > 0 {
        return out;
    }
    let mut i: usize = 0;
    while i < addresses.len()
        invariant
            i <= addresses@.len(),
            cover_models(out@) == gathered(
                capture_views(addresses@).take(i as int),
                |g| address_cover(g),
            ),
        decreases addresses@.len() - i,
    {
        let ghost before = out@;
        let found = cover_of_address(&addresses[i]);
        proof {
            let all = capture_views(addresses@);
            assert(all.take(i + 1).drop_last() =~= all.take(i as int));
            assert(capture_views(seq![addresses@[i as int]])[0] =~= all[i as int]);
        }
        match found {
            Some(c) => {
                out.push(c);
                assert(cover_models(out@) =~= cover_models(before).push(c@));
            },
            None => {},
        }
        i = i + 1;
    }
    assert(capture_views(addresses@).take(i as int) =~= capture_views(addresses@));
    out
}

/// Reads the covers out of the text of a covers page. Fails only where a
/// pattern is refused.
pub fn parse_covers_html(html: &str) -> (r: Result<Vec<CoverInfo>, String>)
    ensures
        match r {
            Ok(covers) => covers_of_page(html@) == Some(cover_models(covers@)),
            Err(_) => covers_of_page(html@) is None,
        },
{
    let headings = all_captures(
        r#"(?s)<div[^>]*class="[^"]*coverHeading[^"]*"[^>]*>([^<]+)</div>.*?<img[^>]*src="([^"]+)"#,
        html,
    );
    let images = all_captures(
        r#"<img[^>]*src="(https://cdn\.mobygames\.com/[^"]+)"[^>]*alt="([^"]*)"#,
        html,
    );
    let addresses = all_captures(r#"https://cdn\.mobygames\.com/[a-f0-9\-]+/covers/[^"'\s]+"#, html);
    match (headings, images, addresses) {
        (Some(h), Some(i), Some(a)) => Ok(covers_from_matches(&h, &i, &a)),
        _ => Err("Failed to compile a cover pattern".to_owned()),
    }
}

/// Decides whether a cover passes the filter of a round.
pub fn cover_passes(cover: &CoverInfo, round: u8, platform: &str) -> (r: bool)
    ensures
        r == passes(*cover, round as int, platform@),
{
    let kind = chars_of(to_lowercase(cover.cover_type.as_str()).as_str());
    let front: bool = contains_in(kind.as_slice(), chars_of("front").as_slice());
    if !front {
        return false;
    }
    if round == 1 || round == 2 {
        let country = chars_of(cover.country.as_str());
        let english: bool = contains_in(country.as_slice(), chars_of("United States").as_slice())
            || contains_in(country.as_slice(), chars_of("United Kingdom").as_slice())
            || contains_in(country.as_slice(), chars_of("World").as_slice());
        if round == 2 {
            return english;
        }
        if !(english || str_eq(cover.country.as_str(), "Unknown")) {
            return false;
        }
    }
    if round == 1 || round == 3 {
        let have = chars_of(to_lowercase(cover.platform.as_str()).as_str());
        let want = chars_of(to_lowercase(platform).as_str());
        contains_in(have.as_slice(), want.as_slice())
    } else {
        true
    }
}

/// Finds the first cover that passes the filter of a round.
pub fn find_passing(covers: &[CoverInfo], round: u8, platform: &str) -> (r: Option<usize>)
    ensures
        match r {
            Some(k) => first_passing(covers@, round as int, platform@, 0) == Some(k as int) && k
                < covers@.len(),
            None => first_passing(covers@, round as int, platform@, 0) is None,
        },
{
    let mut k: usize = 0;
    while k < covers.len()
        invariant
            k <= covers@.len(),
            first_passing(covers@, round as int, platform@, 0) == first_passing(
                covers@,
                round as int,
                platform@,
                k as int,
            ),
        decreases covers@.len() - k,
    {
        if cover_passes(&covers[k], round, platform) {
            return Some(k);
        }
        k = k + 1;
    }
    None
}

/// Finds the first cover that passes the filter of a round for a platform,
/// the platforms taken in order of preference.
pub fn find_by_platform(covers: &[CoverInfo], round: u8) -> (r: Option<usize>)
    ensures
        match r {
            Some(k) => first_by_platform(covers@, round as int, 0) == Some(k as int) && k
                < covers@.len(),
            None => first_by_platform(covers@, round as int, 0) is None,
        },
{
    let mut platforms: Vec<&'static str> = Vec::new();
    platforms.push("DOS");
    platforms.push("Windows");
    platforms.push("Windows 3.x");
    platforms.push("Macintosh");
    platforms.push("Linux");
    platforms.push("PC-98");
    platforms.push("Amiga");
    let mut p: usize = 0;
    while p < platforms.len()
        invariant
            p <= platforms@.len() == 7,
            forall|i: int| 0 <= i < 7 ==> (#[trigger] platforms@[i])@ == platform_priority()[i],
            first_by_platform(covers@, round as int, 0) == first_by_platform(
                covers@,
                round as int,
                p as int,
            ),
        decreases platforms@.len() - p,
    {
        match find_passing(covers, round, platforms[p]) {
            Some(k) => {
                return Some(k);
            },
            None => {},
        }
        p = p + 1;
    }
    None
}

/// Finds the best cover.
pub fn find_best_cover(covers: &[CoverInfo]) -> (r: Option<usize>)
    ensures
        match r {
            Some(k) => best_cover(covers@) == Some(k as int) && k < covers@.len(),
            None => best_cover(covers@) is None,
        },
{
    match find_by_platform(covers, 1) {
        Some(k) => {
            return Some(k);
        },
        None => {},
    }
    proof {
        reveal_strlit("");
        assert(""@ =~= Seq::<char>::empty());
    }
    match find_passing(covers, 2, "") {
        Some(k) => {
            return Some(k);
        },
        None => {},
    }
    match find_by_platform(covers, 3) {
        Some(k) => {
            return Some(k);
        },
        None => {},
    }
    find_passing(covers, 4, "")
}

/// The position of the first address from `from` on that is the page of a
/// game: it holds "mobygames.com/game/".
pub open spec fn first_game_page(urls: Seq<Seq<char>>, from: int) -> Option<int>
    decreases urls.len() - from,
{
    if from < 0 || from >= urls.len() {
        None
    } else if contains_sub(urls[from], "mobygames.com/game/"@) {
        Some(from)
    } else {
        first_game_page(urls, from + 1)
    }
}

/// The title of the result that stands for a cover.
pub open spec fn result_title(title: Seq<char>, cover: CoverInfo) -> Seq<char> {
    title + " - "@ + cover.platform@ + " ("@ + cover.country@ + ")"@
}

/// The words with which the page of a game is searched for.
pub fn game_page_query(title: &str) -> (r: String)
    ensures
        r@ == "\""@ + title@ + "\" site:mobygames.com"@,
{
    concat3("\"", title, "\" site:mobygames.com")
}

/// Picks the page of the game among the addresses that a search gave: the
/// first that is the page of a game.
pub fn find_game_page(urls: &Vec<String>, title: &str) -> (r: Result<usize, String>)
    ensures
        match r {
            Ok(k) => first_game_page(string_views(urls@), 0) == Some(k as int) && k < urls@.len(),
            Err(e) => first_game_page(string_views(urls@), 0) is None && e@
                == "No MobyGames result found for '"@ + title@ + "'"@,
        },
{
    let mark = chars_of("mobygames.com/game/");
    let mut i: usize = 0;
    while i < urls.len()
        invariant
            i <= urls@.len(),
            mark@ == "mobygames.com/game/"@,
            first_game_page(string_views(urls@), 0) == first_game_page(string_views(urls@), i as int),
        decreases urls@.len() - i,
    {
        let url = chars_of(urls[i].as_str());
        assert(string_views(urls@)[i as int] == urls@[i as int]@);
        if contains_in(url.as_slice(), mark.as_slice()) {
            return Ok(i);
        }
        i = i + 1;
    }
    Err(concat3("No MobyGames result found for '", title, "'"))
}

/// The address of the covers of a game: the address of its page without
/// trailing slashes, and `/covers/`.
pub fn covers_page_url(game_url: &str) -> (r: String)
    ensures
        r@ == without_trailing_slashes(game_url@) + "/covers/"@,
{
    let base = strip_trailing_slashes(chars_of(game_url).as_slice());
    concat2(string_of(base.as_slice()).as_str(), "/covers/")
}

/// The result of a search for the covers of a game: the best of the
/// covers that were found. Fails where none was found or none is a front
/// cover.
pub fn best_cover_result(title: &str, covers: &Vec<CoverInfo>) -> (r: Result<ImageResult, String>)
    ensures
        match r {
            Ok(found) => best_cover(covers@) matches Some(k) && found.image_url@
                == covers@[k].full_url@ && found.thumbnail_url@ == covers@[k].thumbnail_url@
                && found.title@ == result_title(title@, covers@[k]) && found.source@
                == "MobyGames"@ && found.width is None && found.height is None,
            Err(e) => best_cover(covers@) is None && e@ == (if covers@.len() == 0 {
                "No covers found on MobyGames page"@
            } else {
                "No suitable cover found (no front covers)"@
            }),
        },
{
    match find_best_cover(covers.as_slice()) {
        Some(k) => {
            let cover = &covers[k];
            let head = concat3(title, " - ", cover.platform.as_str());
            let middle = concat3(head.as_str(), " (", cover.country.as_str());
            Ok(
                ImageResult {
                    image_url: cover.full_url.clone(),
                    thumbnail_url: cover.thumbnail_url.clone(),
                    title: concat2(middle.as_str(), ")"),
                    source: "MobyGames".to_owned(),
                    width: None,
                    height: None,
                },
            )
        },
        None => {
            if covers.len() == 0 {
                Err("No covers found on MobyGames page".to_owned())
            } else {
                Err("No suitable cover found (no front covers)".to_owned())
            }
        },
    }
}

} // verus!
