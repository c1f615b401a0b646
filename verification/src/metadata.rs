//! What a media player tells about the track it plays.
//!
//! The player control prints one fact per line: the player, then the name of
//! the fact behind the name of its vocabulary and a colon, then the value.

use crate::text::{
    after_last, after_last_mark, decimal, decimal_up_to, has_mark, holds_mark, is_plain_decimal,
    join_from, joined, lines, lines_of, number_text, parse_usize, same_text, views, words,
    words_of,
};
use vstd::prelude::*;

verus! {

/// Why a report of a player could not be read.
#[derive(Debug, PartialEq, Eq)]
pub enum MetadataError {
    /// The report names a fact that is not known.
    UnknownMetadataType(String),
    /// A line is not made of a player, a named fact and a value.
    PestError(String),
    /// A value is not of its kind: the kind, the value, the cause.
    ParsingError(String, String, String),
    /// The report names no player.
    NoPlayer,
}

/// One fact about a track.
#[derive(Debug, PartialEq, Eq)]
pub enum MetadataType {
    Trackid(String),
    Title(String),
    Album(String),
    Artist(String),
    ArtUrl(String),
    Url(String),
    Length(usize),
}

/// A [`MetadataType`] as contracts see it.
pub ghost enum MetadataTypeView {
    Trackid(Seq<char>),
    Title(Seq<char>),
    Album(Seq<char>),
    Artist(Seq<char>),
    ArtUrl(Seq<char>),
    Url(Seq<char>),
    Length(usize),
}

impl View for MetadataType {
    type V = MetadataTypeView;

    open spec fn view(&self) -> MetadataTypeView {
        match self {
            MetadataType::Trackid(text) => MetadataTypeView::Trackid(text@),
            MetadataType::Title(text) => MetadataTypeView::Title(text@),
            MetadataType::Album(text) => MetadataTypeView::Album(text@),
            MetadataType::Artist(text) => MetadataTypeView::Artist(text@),
            MetadataType::ArtUrl(text) => MetadataTypeView::ArtUrl(text@),
            MetadataType::Url(text) => MetadataTypeView::Url(text@),
            MetadataType::Length(length) => MetadataTypeView::Length(*length),
        }
    }
}

/// The fact that goes by the name `key` and has the value `value`, if the
/// name is known and the value is of its kind.
pub open spec fn fact_of(key: Seq<char>, value: Seq<char>) -> Option<MetadataTypeView> {
    if key == "trackid"@ {
        Some(MetadataTypeView::Trackid(value))
    } else if key == "title"@ {
        Some(MetadataTypeView::Title(value))
    } else if key == "album"@ {
        Some(MetadataTypeView::Album(value))
    } else if key == "artist"@ {
        Some(MetadataTypeView::Artist(value))
    } else if key == "artUrl"@ {
        Some(MetadataTypeView::ArtUrl(value))
    } else if key == "url"@ {
        Some(MetadataTypeView::Url(value))
    } else if key == "length"@ {
        match decimal_up_to(value, usize::MAX as nat) {
            Some(length) => Some(MetadataTypeView::Length(length as usize)),
            None => None,
        }
    } else {
        None
    }
}

/// Whether `key` is the name of a fact.
pub open spec fn is_known_key(key: Seq<char>) -> bool {
    ||| key == "trackid"@
    ||| key == "title"@
    ||| key == "album"@
    ||| key == "artist"@
    ||| key == "artUrl"@
    ||| key == "url"@
    ||| key == "length"@
}

impl MetadataType {
    /// The fact that goes by the name `key` and has the value `value`. A name
    /// that is not known is refused with the name; a length that is no
    /// number is refused with the value.
    pub fn parse(key: &str, value: &str) -> (fact: Result<Self, MetadataError>)
        ensures
            match fact {
                Ok(fact) => fact_of(key@, value@) == Some(fact@),
                Err(MetadataError::UnknownMetadataType(name)) => !is_known_key(key@) && name@
                    == key@,
                Err(MetadataError::ParsingError(kind, text, _)) => {
                    &&& key@ == "length"@
                    &&& decimal_up_to(value@, usize::MAX as nat) is None
                    &&& kind@ == "usize"@
                    &&& text@ == value@
                },
                Err(_) => false,
            },
    {
        proof {
            lemma_keys_differ();
        }
        if same_text(key, "trackid") {
            Ok(MetadataType::Trackid(value.to_string()))
        } else if same_text(key, "title") {
            Ok(MetadataType::Title(value.to_string()))
        } else if same_text(key, "album") {
            Ok(MetadataType::Album(value.to_string()))
        } else if same_text(key, "artist") {
            Ok(MetadataType::Artist(value.to_string()))
        } else if same_text(key, "artUrl") {
            Ok(MetadataType::ArtUrl(value.to_string()))
        } else if same_text(key, "url") {
            Ok(MetadataType::Url(value.to_string()))
        } else if same_text(key, "length") {
            match parse_usize(value) {
                Ok(length) => Ok(MetadataType::Length(length)),
                Err(cause) => Err(
                    MetadataError::ParsingError("usize".to_string(), value.to_string(), cause),
                ),
            }
        } else {
            Err(MetadataError::UnknownMetadataType(key.to_string()))
        }
    }
}

impl TryFrom<(&str, &str)> for MetadataType {
    type Error = MetadataError;

    fn try_from(value: (&str, &str)) -> (fact: Result<Self, MetadataError>)
        ensures
            match fact {
                Ok(fact) => fact_of(value.0@, value.1@) == Some(fact@),
                Err(MetadataError::UnknownMetadataType(name)) => !is_known_key(value.0@) && name@
                    == value.0@,
                Err(MetadataError::ParsingError(kind, text, _)) => {
                    &&& value.0@ == "length"@
                    &&& decimal_up_to(value.1@, usize::MAX as nat) is None
                    &&& kind@ == "usize"@
                    &&& text@ == value.1@
                },
                Err(_) => false,
            },
    {
        MetadataType::parse(value.0, value.1)
    }
}

impl vstd::std_specs::convert::TryFromSpecImpl<(&str, &str)> for MetadataType {
    open spec fn obeys_try_from_spec() -> bool {
        false
    }

    open spec fn try_from_spec(value: (&str, &str)) -> Result<Self, MetadataError> {
        arbitrary()
    }
}

/// The names of the facts differ from each other.
proof fn lemma_keys_differ()
    ensures
        "length"@ != "trackid"@,
        "length"@ != "title"@,
        "length"@ != "album"@,
        "length"@ != "artist"@,
        "length"@ != "artUrl"@,
        "length"@ != "url"@,
{
    reveal_strlit("trackid");
    reveal_strlit("title");
    reveal_strlit("album");
    reveal_strlit("artist");
    reveal_strlit("artUrl");
    reveal_strlit("url");
    reveal_strlit("length");
    assert("length"@.len() == 6);
    assert("trackid"@.len() == 7);
    assert("title"@.len() == 5);
    assert("album"@.len() == 5);
    assert("artist"@[0] == 'a');
    assert("artUrl"@[0] == 'a');
    assert("length"@[0] == 'l');
    assert("url"@.len() == 3);
}

/// One line of a report: a player and a fact.
#[derive(Debug, PartialEq, Eq)]
pub struct MetadataEntry {
    pub source: String,
    pub value: MetadataType,
}

/// A [`MetadataEntry`] as contracts see it.
pub ghost struct MetadataEntryView {
    pub source: Seq<char>,
    pub value: MetadataTypeView,
}

impl View for MetadataEntry {
    type V = MetadataEntryView;

    open spec fn view(&self) -> MetadataEntryView {
        MetadataEntryView { source: self.source@, value: self.value@ }
    }
}

/// The views of the entries in `entries`, in order.
pub open spec fn entry_views(entries: Seq<MetadataEntry>) -> Seq<MetadataEntryView> {
    Seq::new(entries.len(), |i: int| entries[i]@)
}

/// What is known of the track that one player plays.
#[derive(Debug, PartialEq, Eq)]
pub struct Metadata {
    pub player: String,
    pub trackid: Option<String>,
    pub title: Option<String>,
    pub artist: Option<String>,
    pub album: Option<String>,
    pub art_url: Option<String>,
    pub url: Option<String>,
    pub length: Option<String>,
}

/// A [`Metadata`] as contracts see it. The length is kept as a number: it is
/// written out as the shortest decimal text of it.
pub ghost struct MetadataView {
    pub player: Seq<char>,
    pub trackid: Option<Seq<char>>,
    pub title: Option<Seq<char>>,
    pub artist: Option<Seq<char>>,
    pub album: Option<Seq<char>>,
    pub art_url: Option<Seq<char>>,
    pub url: Option<Seq<char>>,
    pub length: Option<usize>,
}

/// The view of a text that may be missing.
pub open spec fn text_view(text: Option<String>) -> Option<Seq<char>> {
    match text {
        Some(text) => Some(text@),
        None => None,
    }
}

impl Metadata {
    /// Whether the track is the one that `view` describes.
    pub open spec fn shows(&self, view: MetadataView) -> bool {
        &&& self.player@ == view.player
        &&& text_view(self.trackid) == view.trackid
        &&& text_view(self.title) == view.title
        &&& text_view(self.artist) == view.artist
        &&& text_view(self.album) == view.album
        &&& text_view(self.art_url) == view.art_url
        &&& text_view(self.url) == view.url
        &&& match view.length {
            Some(length) => self.length is Some && is_plain_decimal(self.length->Some_0@)
                && decimal(self.length->Some_0@) == Some(length as nat),
            None => self.length is None,
        }
    }
}

impl MetadataView {
    /// A track of which nothing is known but the player.
    pub open spec fn new(player: Seq<char>) -> Self {
        MetadataView {
            player,
            trackid: None,
            title: None,
            artist: None,
            album: None,
            art_url: None,
            url: None,
            length: None,
        }
    }

    /// What is known after one more fact.
    pub open spec fn with(self, fact: MetadataTypeView) -> Self {
        match fact {
            MetadataTypeView::Trackid(text) => MetadataView { trackid: Some(text), ..self },
            MetadataTypeView::Title(text) => MetadataView { title: Some(text), ..self },
            MetadataTypeView::Album(text) => MetadataView { album: Some(text), ..self },
            MetadataTypeView::Artist(text) => MetadataView { artist: Some(text), ..self },
            MetadataTypeView::ArtUrl(text) => MetadataView { art_url: Some(text), ..self },
            MetadataTypeView::Url(text) => MetadataView { url: Some(text), ..self },
            MetadataTypeView::Length(length) => MetadataView { length: Some(length), ..self },
        }
    }
}

/// What the entries tell of the track of `player`: each entry of that player
/// adds its fact, a later one in place of an earlier one of the same kind.
pub open spec fn track_of(entries: Seq<MetadataEntryView>, player: Seq<char>) -> MetadataView
    decreases entries.len(),
{
    if entries.len() == 0 {
        MetadataView::new(player)
    } else if entries.last().source == player {
        track_of(entries.drop_last(), player).with(entries.last().value)
    } else {
        track_of(entries.drop_last(), player)
    }
}

impl Metadata {
    /// A track of which nothing is known but the player.
    pub fn new(player: String) -> (metadata: Self)
        ensures
            metadata.shows(MetadataView::new(player@)),
    {
        Metadata {
            player,
            trackid: None,
            title: None,
            artist: None,
            album: None,
            art_url: None,
            url: None,
            length: None,
        }
    }

    /// What the entries tell of the track of `player`.
    pub fn track(value: &[MetadataEntry], player: String) -> (metadata: Self)
        ensures
            metadata.shows(track_of(entry_views(value@), player@)),
    {
        let ghost name = player@;
        let mut metadata = Metadata::new(player);
        let ghost entries = entry_views(value@);
        let mut i: usize = 0;
        assert(entries.take(0) =~= Seq::<MetadataEntryView>::empty());
        while i < value.len()
            invariant
                i <= value@.len(),
                entries == entry_views(value@),
                metadata.player@ == name,
                metadata.shows(track_of(entries.take(i as int), name)),
            decreases value@.len() - i,
        {
            let entry = &value[i];
            let ghost next = entries.take(i + 1);
            assert(next.drop_last() =~= entries.take(i as int));
            assert(next.last() == entry@);
            if same_text(metadata.player.as_str(), entry.source.as_str()) {
                match &entry.value {
                    MetadataType::Trackid(trackid) => { metadata.trackid = Some(trackid.clone()); },
                    MetadataType::Title(title) => { metadata.title = Some(title.clone()); },
                    MetadataType::Album(album) => { metadata.album = Some(album.clone()); },
                    MetadataType::Artist(artist) => { metadata.artist = Some(artist.clone()); },
                    MetadataType::ArtUrl(art_url) => { metadata.art_url = Some(art_url.clone()); },
                    MetadataType::Url(url) => { metadata.url = Some(url.clone()); },
                    MetadataType::Length(length) => {
                        metadata.length = Some(number_text(*length));
                    },
                }
            }
            i = i + 1;
        }
        assert(entries.take(value@.len() as int) =~= entries);
        metadata
    }

    /// What the entries tell of the track of the player that the first entry
    /// names. Without an entry there is no player.
    pub fn from_entries(value: &[MetadataEntry]) -> (metadata: Result<Self, MetadataError>)
        ensures
            match metadata {
                Ok(metadata) => value@.len() > 0 && metadata.shows(
                    track_of(entry_views(value@), value@[0].source@),
                ),
                Err(error) => value@.len() == 0 && error == MetadataError::NoPlayer,
            },
    {
        if value.len() == 0 {
            return Err(MetadataError::NoPlayer);
        }
        Ok(Metadata::track(value, value[0].source.clone()))
    }
}

impl TryFrom<&[MetadataEntry]> for Metadata {
    type Error = MetadataError;

    fn try_from(value: &[MetadataEntry]) -> (metadata: Result<Self, MetadataError>)
        ensures
            match metadata {
                Ok(metadata) => value@.len() > 0 && metadata.shows(
                    track_of(entry_views(value@), value@[0].source@),
                ),
                Err(error) => value@.len() == 0 && error == MetadataError::NoPlayer,
            },
    {
        Metadata::from_entries(value)
    }
}

impl vstd::std_specs::convert::TryFromSpecImpl<&[MetadataEntry]> for Metadata {
    open spec fn obeys_try_from_spec() -> bool {
        false
    }

    open spec fn try_from_spec(value: &[MetadataEntry]) -> Result<Self, MetadataError> {
        arbitrary()
    }
}

/// What is wrong with a line of a report.
pub ghost enum LineFault {
    /// The line is not made of a player, a named fact and a value.
    Syntax,
    /// The fact's name is not known: the name.
    UnknownKey(Seq<char>),
    /// The length is no number: the value.
    BadLength(Seq<char>),
}

/// What a line of a report says.
pub ghost enum Line {
    /// Nothing: the line holds no word.
    Blank,
    /// A fact about the track of a player.
    Entry(MetadataEntryView),
    /// Nothing that can be read.
    Fault(LineFault),
}

/// What `line` says. Its first word is the player; its second word holds the
/// name of the fact behind a colon; the words after that are the value, with
/// one blank between each two.
pub open spec fn read_line(line: Seq<char>) -> Line {
    let found = words_of(line);
    if found.len() == 0 {
        Line::Blank
    } else if found.len() < 3 || !has_mark(found[1], ':') {
        Line::Fault(LineFault::Syntax)
    } else {
        let key = after_last_mark(found[1], ':');
        let value = joined(found.skip(2));
        match fact_of(key, value) {
            Some(fact) => Line::Entry(MetadataEntryView { source: found[0], value: fact }),
            None => if is_known_key(key) {
                Line::Fault(LineFault::BadLength(value))
            } else {
                Line::Fault(LineFault::UnknownKey(key))
            },
        }
    }
}

/// The facts that the lines tell, in order, or what is wrong with the first
/// line that cannot be read.
pub open spec fn read_lines(lines: Seq<Seq<char>>) -> Result<Seq<MetadataEntryView>, LineFault>
    decreases lines.len(),
{
    if lines.len() == 0 {
        Ok(Seq::empty())
    } else {
        match read_lines(lines.drop_last()) {
            Err(fault) => Err(fault),
            Ok(done) => match read_line(lines.last()) {
                Line::Blank => Ok(done),
                Line::Entry(entry) => Ok(done.push(entry)),
                Line::Fault(fault) => Err(fault),
            },
        }
    }
}

/// Whether entry `i` is the first of its player.
pub open spec fn is_first_of_player(entries: Seq<MetadataEntryView>, i: int) -> bool {
    forall|j: int| 0 <= j < i ==> (#[trigger] entries[j]).source != entries[i].source
}

/// The tracks of the players that the first `count` entries name, each player
/// once, in the order in which the players first appear. Each track is told
/// by all the entries.
pub open spec fn tracks_up_to(entries: Seq<MetadataEntryView>, count: int) -> Seq<MetadataView>
    decreases count,
{
    if count <= 0 {
        Seq::empty()
    } else if is_first_of_player(entries, count - 1) {
        tracks_up_to(entries, count - 1).push(track_of(entries, entries[count - 1].source))
    } else {
        tracks_up_to(entries, count - 1)
    }
}

/// Whether `error` says what `fault` is.
pub open spec fn tells_fault(error: MetadataError, fault: LineFault) -> bool {
    match fault {
        LineFault::Syntax => error is PestError,
        LineFault::UnknownKey(key) => error matches MetadataError::UnknownMetadataType(name)
            && name@ == key,
        LineFault::BadLength(value) => error matches MetadataError::ParsingError(kind, text, _)
            && kind@ == "usize"@ && text@ == value,
    }
}

/// Reads one line of a report. A line without a word says nothing.
pub fn parse_line(line: &str) -> (entry: Result<Option<MetadataEntry>, MetadataError>)
    ensures
        match entry {
            Ok(None) => read_line(line@) == Line::Blank,
            Ok(Some(entry)) => read_line(line@) == Line::Entry(entry@),
            Err(error) => read_line(line@) matches Line::Fault(fault) && tells_fault(error, fault),
        },
{
    let found = words(line);
    if found.len() == 0 {
        return Ok(None);
    }
    if found.len() < 3 {
        return Err(MetadataError::PestError(line.to_string()));
    }
    assert(views(found@)[0] == found@[0]@);
    assert(views(found@)[1] == found@[1]@);
    if !holds_mark(found[1].as_str(), ':') {
        return Err(MetadataError::PestError(line.to_string()));
    }
    let key = after_last(found[1].as_str(), ':');
    let value = join_from(&found, 2);
    match MetadataType::parse(key.as_str(), value.as_str()) {
        Ok(fact) => Ok(Some(MetadataEntry { source: found[0].clone(), value: fact })),
        Err(error) => {
            proof {
                lemma_keys_differ();
            }
            Err(error)
        },
    }
}

/// The grammar of a report, which [`parse_metadata`] reads.
#[derive(Debug, Clone, Copy, PartialEq, Eq, Structural)]
pub struct MetadataParser;

/// Reads a report of the player control: one track for each player that it
/// names, in the order in which the players first appear. The report is
/// refused as a whole at the first line that cannot be read.
pub fn parse_metadata(input: &str) -> (tracks: Result<
    Vec<Result<Metadata, MetadataError>>,
    MetadataError,
>)
    ensures
        match tracks {
            Ok(tracks) => {
                &&& read_lines(lines_of(input@)) matches Ok(entries)
                &&& tracks@.len() == tracks_up_to(entries, entries.len() as int).len()
                &&& forall|i: int|
                    0 <= i < tracks@.len() ==> (#[trigger] tracks@[i]) is Ok
                        && tracks@[i]->Ok_0.shows(tracks_up_to(entries, entries.len() as int)[i])
            },
            Err(error) => read_lines(lines_of(input@)) matches Err(fault) && tells_fault(
                error,
                fault,
            ),
        },
{
    let all = lines(input);
    let ghost texts = views(all@);
    let mut entries: Vec<MetadataEntry> = Vec::new();
    let mut i: usize = 0;
    assert(texts.take(0) =~= Seq::<Seq<char>>::empty());
    assert(entry_views(entries@) =~= Seq::<MetadataEntryView>::empty());
    while i < all.len()
        invariant
            i <= all@.len(),
            texts == views(all@),
            texts == lines_of(input@),
            read_lines(texts.take(i as int)) == Ok::<Seq<MetadataEntryView>, LineFault>(
                entry_views(entries@),
            ),
        decreases all@.len() - i,
    {
        let ghost next = texts.take(i + 1);
        assert(next.drop_last() =~= texts.take(i as int));
        assert(next.last() == all@[i as int]@);
        match parse_line(all[i].as_str()) {
            Ok(None) => {},
            Ok(Some(entry)) => {
                let ghost before = entries@;
                entries.push(entry);
                assert(entry_views(entries@) =~= entry_views(before).push(entry@));
            },
            Err(error) => {
                proof {
                    lemma_fault_stays(texts, i + 1);
                }
                return Err(error);
            },
        }
        i = i + 1;
    }
    assert(texts.take(all@.len() as int) =~= texts);
    let ghost facts = entry_views(entries@);
    let mut tracks: Vec<Result<Metadata, MetadataError>> = Vec::new();
    let mut k: usize = 0;
    while k < entries.len()
        invariant
            k <= entries@.len(),
            facts == entry_views(entries@),
            tracks@.len() == tracks_up_to(facts, k as int).len(),
            forall|t: int|
                0 <= t < tracks@.len() ==> (#[trigger] tracks@[t]) is Ok && tracks@[t]->Ok_0.shows(
                    tracks_up_to(facts, k as int)[t],
                ),
        decreases entries@.len() - k,
    {
        let mut first: bool = true;
        let mut j: usize = 0;
        while j < k
            invariant
                j <= k,
                k < entries@.len(),
                facts == entry_views(entries@),
                first == forall|e: int| 0 <= e < j ==> (#[trigger] facts[e]).source != facts[k as int].source,
            decreases k - j,
        {
            assert(facts[j as int].source == entries@[j as int].source@);
            assert(facts[k as int].source == entries@[k as int].source@);
            if same_text(entries[j].source.as_str(), entries[k].source.as_str()) {
                first = false;
            }
            j = j + 1;
        }
        if first {
            let ghost before = tracks@;
            let track = Metadata::track(entries.as_slice(), entries[k].source.clone());
            tracks.push(Ok(track));
            assert(facts[k as int].source == entries@[k as int].source@);
            assert forall|t: int| 0 <= t < tracks@.len() implies (#[trigger] tracks@[t]) is Ok
                && tracks@[t]->Ok_0.shows(tracks_up_to(facts, k + 1)[t]) by {
                if t < before.len() {
                    assert(tracks@[t] == before[t]);
                }
            }
        }
        k = k + 1;
    }
    Ok(tracks)
}

/// Once a line cannot be read, no later line changes what is wrong.
proof fn lemma_fault_stays(lines: Seq<Seq<char>>, count: int)
    requires
        0 <= count <= lines.len(),
        read_lines(lines.take(count)) is Err,
    ensures
        read_lines(lines) == read_lines(lines.take(count)),
    decreases lines.len() - count,
{
    if count == lines.len() {
        assert(lines.take(count) =~= lines);
    } else {
        let longer = lines.take(count + 1);
        assert(longer.drop_last() =~= lines.take(count));
        lemma_fault_stays(lines, count + 1);
    }
}

} // verus!
