//! The Redump database: games and the files that belong to them.

use vstd::prelude::*;
use crate::paths::{file_stem_of, path_file_stem};
use crate::text::search::{contains_in, contains_sub, starts_with, starts_with_chars};
use crate::text::trim::{split_words, words};
use crate::text::{chars_of, lowercase_text, str_eq, string_views, to_lowercase, views};

verus! {

/// A file of a game.
#[derive(Debug, Clone)]
pub struct Rom {
    /// File name.
    pub name: String,
    /// Size.
    pub size: Option<String>,
    /// CRC checksum.
    pub crc: Option<String>,
    /// MD5 checksum.
    pub md5: Option<String>,
    /// SHA-1 checksum.
    pub sha1: Option<String>,
}

/// A game of a data file.
#[derive(Debug, Clone)]
pub struct Game {
    /// Name.
    pub name: String,
    /// Category.
    pub category: Option<String>,
    /// Description.
    pub description: Option<String>,
    /// Files.
    pub roms: Vec<Rom>,
}

/// The header of a data file.
#[derive(Debug, Clone)]
pub struct Header {
    /// Name of the system.
    pub name: Option<String>,
    /// Description.
    pub description: Option<String>,
    /// Version.
    pub version: Option<String>,
    /// Author.
    pub author: Option<String>,
}

/// A data file.
#[derive(Debug, Clone)]
pub struct Datafile {
    /// Header.
    pub header: Option<Header>,
    /// Games.
    pub games: Vec<Game>,
}

/// A game, as it is matched against file names.
#[derive(Debug, Clone)]
pub struct RedumpGame {
    /// Name, such as "Batman Forever (Europe)".
    pub name: String,
    /// Category.
    pub category: Option<String>,
    /// Names of the files of the game.
    pub filenames: Vec<String>,
    /// CRC checksums of the files that have one.
    pub crcs: Vec<String>,
}

/// The database.
#[derive(Debug)]
pub struct RedumpDatabase {
    all_games: Vec<RedumpGame>,
    /// Name of the system, such as "IBM - PC compatible".
    pub system_name: Option<String>,
}

/// The key under which a file name is found: its stem, or the whole name
/// if it has none, in lower case.
pub open spec fn base_name(filename: Seq<char>) -> Seq<char> {
    lowercase_text(
        match path_file_stem(filename) {
            Some(stem) => stem,
            None => filename,
        },
    )
}

/// The names of the files of the games.
pub open spec fn rom_names(roms: Seq<Rom>) -> Seq<Seq<char>> {
    Seq::new(roms.len(), |i: int| roms[i].name@)
}

/// The matches of one game: its index, once for every file of the first
/// `count` whose key is `base`.
pub open spec fn game_matches(filenames: Seq<String>, count: int, base: Seq<char>, index: int) -> Seq<
    int,
>
    decreases count,
{
    if count <= 0 {
        Seq::empty()
    } else if base_name(filenames[count - 1]@) == base {
        game_matches(filenames, count - 1, base, index).push(index)
    } else {
        game_matches(filenames, count - 1, base, index)
    }
}

/// The matches among the first `count` games, in order.
pub open spec fn all_matches(games: Seq<RedumpGame>, count: int, base: Seq<char>) -> Seq<int>
    decreases count,
{
    if count <= 0 {
        Seq::empty()
    } else {
        all_matches(games, count - 1, base) + game_matches(
            games[count - 1].filenames@,
            games[count - 1].filenames@.len() as int,
            base,
            count - 1,
        )
    }
}

/// The key under which a file name is found.
pub fn base_of(filename: &str) -> (r: String)
    ensures
        r@ == base_name(filename@),
{
    match file_stem_of(filename) {
        Some(stem) => to_lowercase(stem.as_str()),
        None => to_lowercase(filename),
    }
}

impl RedumpGame {
    /// The game of a data file, as it is matched against file names.
    pub fn from_game(game: Game) -> (r: Self)
        ensures
            r.name == game.name,
            r.category == game.category,
            string_views(r.filenames@) == rom_names(game.roms@),
    {
        let mut filenames: Vec<String> = Vec::new();
        let mut crcs: Vec<String> = Vec::new();
        let mut i: usize = 0;
        while i < game.roms.len()
            invariant
                i <= game.roms@.len(),
                string_views(filenames@) == rom_names(game.roms@).take(i as int),
            decreases game.roms@.len() - i,
        {
            let rom = &game.roms[i];
            let name = rom.name.clone();
            proof {
                let all = rom_names(game.roms@);
                assert(name@ == all[i as int]);
                assert(string_views(filenames@.push(name)) =~= string_views(filenames@).push(name@));
                assert(all.take(i + 1) =~= all.take(i as int).push(all[i as int]));
            }
            filenames.push(name);
            match &rom.crc {
                Some(crc) => {
                    crcs.push(crc.clone());
                },
                None => {},
            }
            i = i + 1;
        }
        proof {
            assert(rom_names(game.roms@).take(i as int) =~= rom_names(game.roms@));
        }
        RedumpGame { name: game.name, category: game.category, filenames, crcs }
    }
}

impl RedumpDatabase {
    /// The games of the database.
    pub closed spec fn games(&self) -> Seq<RedumpGame> {
        self.all_games@
    }

    /// The name of the system.
    pub closed spec fn system(&self) -> Option<String> {
        self.system_name
    }

    /// An empty database.
    pub fn new() -> (r: Self)
        ensures
            r.games().len() == 0,
            r.system() is None,
    {
        RedumpDatabase { all_games: Vec::new(), system_name: None }
    }

    /// Takes the games of a parsed data file into the database and
    /// returns their number. The name of the system is taken from the
    /// header, if there is one.
    pub fn load_dat(&mut self, datafile: Datafile) -> (r: usize)
        ensures
            r == datafile.games@.len(),
            final(self).games().len() == old(self).games().len() + datafile.games@.len(),
            forall|i: int|
                0 <= i < old(self).games().len() ==> final(self).games()[i] == old(self).games()[i],
            datafile.header is None ==> final(self).system() == old(self).system(),
            datafile.header matches Some(h) ==> final(self).system() == h.name,
    {
        let mut datafile = datafile;
        match &datafile.header {
            Some(header) => {
                self.system_name = header.name.clone();
            },
            None => {},
        }
        let count: usize = datafile.games.len();
        let ghost start = self.all_games@;
        let ghost system = self.system_name;
        let mut taken: usize = 0;
        while datafile.games.len() > 0
            invariant
                taken + datafile.games@.len() == count,
                self.all_games@.len() == start.len() + taken,
                self.system_name == system,
                forall|i: int| 0 <= i < start.len() ==> self.all_games@[i] == start[i],
            decreases datafile.games@.len(),
        {
            let game = datafile.games.remove(0);
            self.all_games.push(RedumpGame::from_game(game));
            taken = taken + 1;
        }
        count
    }

    /// Finds the games that have a file with the given name, without
    /// regard to case or extension: the indices of the games, in order,
    /// once for every file that matches.
    pub fn find_by_filename(&self, filename: &str) -> (r: Vec<usize>)
        ensures
            r@.len() == all_matches(self.games(), self.games().len() as int, base_name(filename@)).len(),
            forall|i: int|
                0 <= i < r@.len() ==> #[trigger] r@[i] == all_matches(
                    self.games(),
                    self.games().len() as int,
                    base_name(filename@),
                )[i] && r@[i] < self.games().len(),
    {
        let base = base_of(filename);
        let mut out: Vec<usize> = Vec::new();
        let mut g: usize = 0;
        while g < self.all_games.len()
            invariant
                g <= self.all_games@.len(),
                base@ == base_name(filename@),
                out@.len() == all_matches(self.games(), g as int, base@).len(),
                forall|i: int|
                    0 <= i < out@.len() ==> #[trigger] out@[i] == all_matches(
                        self.games(),
                        g as int,
                        base@,
                    )[i] && out@[i] < self.games().len(),
            decreases self.all_games@.len() - g,
        {
            let game = &self.all_games[g];
            let ghost before = all_matches(self.games(), g as int, base@);
            let mut f: usize = 0;
            while f < game.filenames.len()
                invariant
                    f <= game.filenames@.len(),
                    g < self.all_games@.len(),
                    game == self.all_games@[g as int],
                    base@ == base_name(filename@),
                    before == all_matches(self.games(), g as int, base@),
                    out@.len() == before.len() + game_matches(
                        game.filenames@,
                        f as int,
                        base@,
                        g as int,
                    ).len(),
                    forall|i: int|
                        0 <= i < out@.len() ==> #[trigger] out@[i] == (before + game_matches(
                            game.filenames@,
                            f as int,
                            base@,
                            g as int,
                        ))[i] && out@[i] < self.games().len(),
                decreases game.filenames@.len() - f,
            {
                let key = base_of(game.filenames[f].as_str());
                if str_eq(key.as_str(), base.as_str()) {
                    out.push(g);
                }
                f = f + 1;
            }
            g = g + 1;
        }
        out
    }

    /// The game with the given index.
    pub fn game(&self, index: usize) -> (r: Option<&RedumpGame>)
        ensures
            match r {
                Some(g) => index < self.games().len() && *g == self.games()[index as int],
                None => index >= self.games().len(),
            },
    {
        if index < self.all_games.len() {
            Some(&self.all_games[index])
        } else {
            None
        }
    }

    /// The number of games in the database.
    pub fn game_count(&self) -> (r: usize)
        ensures
            r == self.games().len(),
    {
        self.all_games.len()
    }
}

/// How a query fits a name.
#[derive(Debug, Clone, Copy, PartialEq, Eq, Structural)]
pub enum MatchShape {
    /// The name is the query.
    Exact,
    /// The name holds the query.
    Contained,
    /// `matched` of the `total` words of the query fit a word of the
    /// name; `leading` says whether the first word of the name begins
    /// with the first word of the query.
    Words { matched: usize, total: usize, leading: bool },
}

/// Whether a word of a query fits one of the words of a name: one of the
/// two holds the other.
pub open spec fn word_fits(word: Seq<char>, name_words: Seq<Seq<char>>) -> bool {
    exists|k: int|
        0 <= k < name_words.len() && (contains_sub(#[trigger] name_words[k], word) || contains_sub(
            word,
            name_words[k],
        ))
}

/// The number of words of a query that fit a word of a name.
pub open spec fn fitting_words(query_words: Seq<Seq<char>>, name_words: Seq<Seq<char>>) -> nat
    decreases query_words.len(),
{
    if query_words.len() == 0 {
        0
    } else {
        fitting_words(query_words.drop_last(), name_words) + (if word_fits(
            query_words.last(),
            name_words,
        ) {
            1nat
        } else {
            0nat
        })
    }
}

/// How a query and its words fit a name.
pub open spec fn shape_of(query: Seq<char>, query_words: Seq<Seq<char>>, name: Seq<char>) -> MatchShape {
    if query == name {
        MatchShape::Exact
    } else if contains_sub(name, query) {
        MatchShape::Contained
    } else {
        MatchShape::Words {
            matched: fitting_words(query_words, words(name)) as usize,
            total: query_words.len() as usize,
            leading: query_words.len() > 0 && words(name).len() > 0 && starts_with(
                words(name)[0],
                query_words[0],
            ),
        }
    }
}

/// Decides whether a word of a query fits one of the words of a name.
pub fn word_fits_any(word: &[char], name_words: &Vec<Vec<char>>) -> (r: bool)
    ensures
        r == word_fits(word@, views(name_words@)),
{
    let mut k: usize = 0;
    while k < name_words.len()
        invariant
            k <= name_words@.len(),
            forall|j: int|
                0 <= j < k ==> !(contains_sub(#[trigger] views(name_words@)[j], word@)
                    || contains_sub(word@, views(name_words@)[j])),
        decreases name_words@.len() - k,
    {
        if contains_in(name_words[k].as_slice(), word) || contains_in(word, name_words[k].as_slice()) {
            assert(views(name_words@)[k as int] == name_words@[k as int]@);
            return true;
        }
        assert(views(name_words@)[k as int] == name_words@[k as int]@);
        k = k + 1;
    }
    false
}

/// Says how a query and its words fit a name.
pub fn match_shape(query: &str, query_words: &Vec<Vec<char>>, name: &str) -> (r: MatchShape)
    ensures
        r == shape_of(query@, views(query_words@), name@),
{
    if str_eq(query, name) {
        return MatchShape::Exact;
    }
    let name_chars = chars_of(name);
    let query_chars = chars_of(query);
    if contains_in(name_chars.as_slice(), query_chars.as_slice()) {
        return MatchShape::Contained;
    }
    let name_words = split_words(name_chars.as_slice());
    let mut matched: usize = 0;
    let mut i: usize = 0;
    while i < query_words.len()
        invariant
            i <= query_words@.len(),
            matched <= i,
            matched == fitting_words(views(query_words@).take(i as int), views(name_words@)),
        decreases query_words@.len() - i,
    {
        proof {
            let all = views(query_words@);
            assert(all.take(i + 1).drop_last() =~= all.take(i as int));
            assert(all[i as int] == query_words@[i as int]@);
        }
        if word_fits_any(query_words[i].as_slice(), &name_words) {
            matched = matched + 1;
        }
        i = i + 1;
    }
    assert(views(query_words@).take(i as int) =~= views(query_words@));
    let leading: bool = query_words.len() > 0 && name_words.len() > 0 && starts_with_chars(
        name_words[0].as_slice(),
        query_words[0].as_slice(),
    );
    proof {
        if query_words@.len() > 0 && name_words@.len() > 0 {
            assert(views(name_words@)[0] == name_words@[0]@);
            assert(views(query_words@)[0] == query_words@[0]@);
        }
    }
    MatchShape::Words { matched, total: query_words.len(), leading }
}

} // verus!
