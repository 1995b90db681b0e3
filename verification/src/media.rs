//! Audio streams and media players of applications.
//!
//! Streams and players are found and controlled with the command line tools
//! `pactl` and `playerctl`.

use vstd::prelude::*;
use vstd::string::StrSliceExecFns;

use crate::process::{command_lines, invocation2, invocation3, Invocation};
use crate::text::{
    contains_text, lines, split_whitespace, starts_with, strip_prefix, trim_start,
};
use crate::text::{
    begins_with, found_at, lines_of, occurs_in, opt_view, views, without_indent, without_prefix,
    words,
};
use crate::text_laws::law_prefixes_are_removed;

verus! {

/// Lower case of a text.
pub uninterp spec fn lower_case(text: Seq<char>) -> Seq<char>;

/// Text in the output of a program, with replacements for what is no UTF-8.
pub uninterp spec fn decoded(bytes: Seq<u8>) -> Seq<char>;

/// Convert a string to lower case with `str::to_lowercase`.
///
/// Nothing is claimed but that the result depends on the text alone, by the
/// Unicode property `Lowercase` and independent of any locale.
#[verifier::external_body]
fn to_lowercase(text: &str) -> (r: String)
    ensures
        r@ == lower_case(text@),
{
    text.to_lowercase()
}

/// Decode the output of a program with `String::from_utf8_lossy`.
///
/// Nothing is claimed but that the result depends on the bytes alone.
#[verifier::external_body]
fn from_utf8_lossy(bytes: &Vec<u8>) -> (r: String)
    ensures
        r@ == decoded(bytes@),
{
    String::from_utf8_lossy(bytes).into_owned()
}

/// Whether an application is known well enough to control its media.
pub open spec fn controllable(app_id: Option<String>) -> bool {
    app_id matches Some(id) && id@.len() > 0
}

/// Check if an application is known well enough to control its media.
pub fn is_controllable(app_id: &Option<String>) -> (r: bool)
    ensures
        r == controllable(*app_id),
{
    match app_id {
        Some(id) => id.as_str().unicode_len() > 0,
        None => false,
    }
}

/// Stream announced by a line of the stream list.
///
/// The inner value is missing for a stream without number.
pub open spec fn stream_of(line: Seq<char>) -> Option<Option<Seq<char>>> {
    match without_prefix(without_indent(line), "Sink Input #"@) {
        Some(rest) => Some(
            if words(rest).len() > 0 {
                Some(words(rest)[0])
            } else {
                None
            },
        ),
        None => None,
    }
}

/// Whether a line of the stream list names an application.
pub open spec fn names_app(line: Seq<char>, app_id: Seq<char>) -> bool {
    begins_with(without_indent(line), "pipewire.access.portal.app_id ="@) && occurs_in(
        app_id,
        without_indent(line),
    )
}

/// Stream that the line after the first `n` lines is about.
pub open spec fn current_stream(list: Seq<Seq<char>>, n: int) -> Option<Seq<char>>
    decreases n,
{
    if n <= 0 {
        None
    } else {
        match stream_of(list[n - 1]) {
            Some(stream) => stream,
            None => current_stream(list, n - 1),
        }
    }
}

/// Streams of an application within the first `n` lines of the stream list.
pub open spec fn app_streams(list: Seq<Seq<char>>, app_id: Seq<char>, n: int) -> Seq<Seq<char>>
    decreases n,
{
    if n <= 0 {
        Seq::empty()
    } else {
        let before = app_streams(list, app_id, n - 1);
        match current_stream(list, n - 1) {
            Some(stream) if stream_of(list[n - 1]) is None && names_app(
                list[n - 1],
                app_id,
            ) => before.push(stream),
            _ => before,
        }
    }
}

/// Find the stream announced by a line of the stream list.
fn parse_stream(line: &str) -> (r: Option<Option<String>>)
    ensures
        match r {
            Some(stream) => stream_of(line@) == Some(opt_view(stream)),
            None => stream_of(line@) is None,
        },
{
    let trimmed = trim_start(line);
    match strip_prefix(trimmed.as_str(), "Sink Input #") {
        Some(rest) => {
            let tokens = split_whitespace(rest.as_str());
            if tokens.len() > 0 {
                assert(views(tokens@)[0] == tokens@[0]@);
                Some(Some(tokens[0].clone()))
            } else {
                Some(None)
            }
        },
        None => None,
    }
}

/// Find the audio streams of an application in a stream list.
pub fn find_streams(list: &str, app_id: &str) -> (r: Vec<String>)
    ensures
        views(r@) == app_streams(lines_of(list@), app_id@, lines_of(list@).len() as int),
{
    let all = lines(list);
    let ghost texts = lines_of(list@);
    let mut current_id: Option<String> = None;
    let mut targets: Vec<String> = Vec::new();
    let mut i: usize = 0;
    while i < all.len()
        invariant
            i <= all.len(),
            texts == views(all@),
            opt_view(current_id) == current_stream(texts, i as int),
            views(targets@) == app_streams(texts, app_id@, i as int),
        decreases all.len() - i,
    {
        let line = all[i].as_str();
        assert(texts[i as int] == line@);
        match parse_stream(line) {
            Some(stream) => {
                current_id = stream;
            },
            None => {
                let trimmed = trim_start(line);
                if starts_with(trimmed.as_str(), "pipewire.access.portal.app_id =")
                    && contains_text(trimmed.as_str(), app_id) {
                    if let Some(id) = &current_id {
                        let ghost before = targets@;
                        targets.push(id.clone());
                        assert(views(targets@) == views(before).push(id@));
                    }
                }
            },
        }
        i += 1;
    }
    targets
}

/// Command which lists all audio streams.
pub fn stream_listing() -> (r: Invocation)
    ensures
        r.line() == seq!["pactl"@, "list"@, "sink-inputs"@],
{
    invocation2("pactl", "list", "sink-inputs")
}

/// Commands which mute or unmute audio streams.
pub open spec fn mute_lines(streams: Seq<Seq<char>>, cork: bool) -> Seq<Seq<Seq<char>>> {
    streams.map_values(
        |stream: Seq<char>|
            seq![
                "pactl"@,
                "set-sink-input-mute"@,
                stream,
                if cork {
                    "1"@
                } else {
                    "0"@
                },
            ],
    )
}

/// Get the commands which mute or unmute audio streams.
pub fn mute_streams(streams: &Vec<String>, cork: bool) -> (r: Vec<Invocation>)
    ensures
        command_lines(r@) == mute_lines(views(streams@), cork),
{
    let mute_value = if cork {
        "1"
    } else {
        "0"
    };
    let mut r: Vec<Invocation> = Vec::new();
    let mut i: usize = 0;
    while i < streams.len()
        invariant
            i <= streams.len(),
            mute_value@ == (if cork {
                "1"@
            } else {
                "0"@
            }),
            r.len() == i,
            forall|j: int|
                0 <= j < i ==> (#[trigger] r@[j]).line() == mute_lines(views(streams@), cork)[j],
        decreases streams.len() - i,
    {
        let command = invocation3(
            "pactl",
            "set-sink-input-mute",
            streams[i].as_str(),
            mute_value,
        );
        assert(views(streams@)[i as int] == streams@[i as int]@);
        r.push(command);
        i += 1;
    }
    assert(command_lines(r@) =~= mute_lines(views(streams@), cork));
    r
}

/// Commands which mute or unmute an application, given the stream list.
pub open spec fn cork_lines(app_id: Option<String>, cork: bool, list: Seq<Seq<char>>) -> Seq<
    Seq<Seq<char>>,
> {
    match app_id {
        Some(id) if id@.len() > 0 => mute_lines(
            app_streams(list, id@, list.len() as int),
            cork,
        ),
        _ => Seq::empty(),
    }
}

/// Mute or unmute the audio streams of an application.
///
/// `output` is what [`stream_listing`] has printed. The result holds the
/// commands which have to be run.
pub fn cork_app_audio(app_id: &Option<String>, cork: bool, output: &Vec<u8>) -> (r: Vec<Invocation>)
    ensures
        command_lines(r@) == cork_lines(*app_id, cork, lines_of(decoded(output@))),
        command_lines(r@) == (if controllable(*app_id) {
            let list = lines_of(decoded(output@));
            mute_lines(app_streams(list, app_id->0@, list.len() as int), cork)
        } else {
            Seq::empty()
        }),
{
    if !is_controllable(app_id) {
        let r: Vec<Invocation> = Vec::new();
        assert(command_lines(r@) =~= Seq::empty());
        return r;
    }
    match app_id {
        Some(id) => {
            let list = from_utf8_lossy(output);
            let streams = find_streams(list.as_str(), id.as_str());
            mute_streams(&streams, cork)
        },
        None => Vec::new(),
    }
}

/// Whether one of two texts occurs in the other one.
pub open spec fn overlaps(a: Seq<char>, b: Seq<char>) -> bool {
    occurs_in(b, a) || occurs_in(a, b)
}

/// Media player with its name in lower case.
pub struct Player {
    pub name: String,
    pub lower: String,
}

/// Players among the first `n` which belong to an application.
pub open spec fn app_players(players: Seq<Player>, app_lower: Seq<char>, n: int) -> Seq<Seq<char>>
    decreases n,
{
    if n <= 0 {
        Seq::empty()
    } else if overlaps(app_lower, players[n - 1].lower@) {
        app_players(players, app_lower, n - 1).push(players[n - 1].name@)
    } else {
        app_players(players, app_lower, n - 1)
    }
}

/// Find the players which belong to an application.
///
/// All names are compared in lower case.
pub fn find_players(players: &Vec<Player>, app_lower: &str) -> (r: Vec<String>)
    ensures
        views(r@) == app_players(players@, app_lower@, players.len() as int),
{
    let mut r: Vec<String> = Vec::new();
    let mut i: usize = 0;
    while i < players.len()
        invariant
            i <= players.len(),
            views(r@) == app_players(players@, app_lower@, i as int),
        decreases players.len() - i,
    {
        let player = &players[i];
        if contains_text(app_lower, player.lower.as_str()) || contains_text(
            player.lower.as_str(),
            app_lower,
        ) {
            let ghost before = r@;
            r.push(player.name.clone());
            assert(views(r@) == views(before).push(player.name@));
        }
        i += 1;
    }
    r
}

/// Players in a list whose name shares a part with an application's.
pub open spec fn listed_players(list: Seq<Seq<char>>, app_id: Seq<char>, n: int) -> Seq<Seq<char>>
    decreases n,
{
    if n <= 0 {
        Seq::empty()
    } else if overlaps(lower_case(app_id), lower_case(list[n - 1])) {
        listed_players(list, app_id, n - 1).push(list[n - 1])
    } else {
        listed_players(list, app_id, n - 1)
    }
}

/// Command for a media player.
pub open spec fn player_line(player: Seq<char>, pause: bool) -> Seq<Seq<char>> {
    seq![
        "playerctl"@,
        "-p"@,
        player,
        if pause {
            "pause"@
        } else {
            "play"@
        },
    ]
}

/// Command for a media player.
fn player_command(player: &str, pause: bool) -> (r: Invocation)
    ensures
        r.line() == player_line(player@, pause),
{
    let action = if pause {
        "pause"
    } else {
        "play"
    };
    invocation3("playerctl", "-p", player, action)
}

/// Command which lists all media players.
pub fn player_listing() -> (r: Invocation)
    ensures
        r.line() == seq!["playerctl"@, "-l"@],
{
    let mut arguments: Vec<String> = Vec::new();
    arguments.push("-l".to_string());
    let r = Invocation { program: "playerctl".to_string(), arguments };
    assert(r.line() =~= seq!["playerctl"@, "-l"@]);
    r
}

/// Commands for the player of an application known by name.
pub open spec fn known_player_lines(app_id: Option<String>, pause: bool) -> Seq<Seq<Seq<char>>> {
    match app_id {
        Some(id) if id@.len() > 0 && occurs_in("jellyfin"@, id@) => seq![
            player_line("jellyfinmediaplayer"@, pause),
        ],
        _ => Seq::empty(),
    }
}

/// Pause or resume the player of an application known by name.
///
/// The result holds the commands which have to be run before players are
/// listed.
pub fn control_known_player(app_id: &Option<String>, pause: bool) -> (r: Vec<Invocation>)
    ensures
        command_lines(r@) == known_player_lines(*app_id, pause),
        command_lines(r@) == (if controllable(*app_id) && occurs_in("jellyfin"@, app_id->0@) {
            seq![player_line("jellyfinmediaplayer"@, pause)]
        } else {
            Seq::empty()
        }),
{
    let mut r: Vec<Invocation> = Vec::new();
    if let Some(id) = app_id {
        if id.as_str().unicode_len() > 0 && contains_text(id.as_str(), "jellyfin") {
            r.push(player_command("jellyfinmediaplayer", pause));
            assert(command_lines(r@) =~= seq![player_line("jellyfinmediaplayer"@, pause)]);
            return r;
        }
    }
    assert(command_lines(r@) =~= Seq::empty());
    r
}

/// Commands for several media players.
pub open spec fn player_lines(players: Seq<Seq<char>>, pause: bool) -> Seq<Seq<Seq<char>>> {
    players.map_values(|player: Seq<char>| player_line(player, pause))
}

proof fn lemma_listed_players(players: Seq<Player>, list: Seq<Seq<char>>, app_id: Seq<char>, n: int)
    requires
        0 <= n <= players.len(),
        players.len() == list.len(),
        forall|i: int|
            0 <= i < players.len() ==> (#[trigger] players[i]).name@ == list[i]
                && players[i].lower@ == lower_case(list[i]),
    ensures
        app_players(players, lower_case(app_id), n) == listed_players(list, app_id, n),
    decreases n,
{
    if n > 0 {
        lemma_listed_players(players, list, app_id, n - 1);
        assert(players[n - 1].name@ == list[n - 1]);
    }
}

/// Commands for the players of an application, given the player list.
pub open spec fn control_lines(app_id: Option<String>, pause: bool, list: Seq<Seq<char>>) -> Seq<
    Seq<Seq<char>>,
> {
    match app_id {
        Some(id) if id@.len() > 0 => player_lines(
            listed_players(list, id@, list.len() as int),
            pause,
        ),
        _ => Seq::empty(),
    }
}

/// Pause or resume the media players of an application.
///
/// `output` is what [`player_listing`] has printed. The result holds the
/// commands which have to be run.
pub fn control_media(app_id: &Option<String>, pause: bool, output: &Vec<u8>) -> (r: Vec<Invocation>)
    ensures
        command_lines(r@) == control_lines(*app_id, pause, lines_of(decoded(output@))),
        command_lines(r@) == (if controllable(*app_id) {
            let list = lines_of(decoded(output@));
            player_lines(listed_players(list, app_id->0@, list.len() as int), pause)
        } else {
            Seq::empty()
        }),
{
    let mut r: Vec<Invocation> = Vec::new();
    if !is_controllable(app_id) {
        assert(command_lines(r@) =~= Seq::empty());
        return r;
    }
    let id: &String = match app_id {
        Some(id) => id,
        None => {
            return r;
        },
    };
    let list = lines(from_utf8_lossy(output).as_str());
    let ghost texts = views(list@);
    let mut players: Vec<Player> = Vec::new();
    let mut i: usize = 0;
    while i < list.len()
        invariant
            i <= list.len(),
            texts == views(list@),
            players.len() == i,
            forall|j: int|
                0 <= j < i ==> (#[trigger] players@[j]).name@ == texts[j] && players@[j].lower@
                    == lower_case(texts[j]),
        decreases list.len() - i,
    {
        assert(texts[i as int] == list@[i as int]@);
        players.push(
            Player { name: list[i].clone(), lower: to_lowercase(list[i].as_str()) },
        );
        i += 1;
    }
    let app_lower = to_lowercase(id.as_str());
    let matching = find_players(&players, app_lower.as_str());
    proof {
        lemma_listed_players(players@, texts, id@, players.len() as int);
    }
    let ghost names = views(matching@);
    let mut i: usize = 0;
    while i < matching.len()
        invariant
            i <= matching.len(),
            names == views(matching@),
            r.len() == i,
            forall|j: int| 0 <= j < i ==> (#[trigger] r@[j]).line() == player_line(names[j], pause),
        decreases matching.len() - i,
    {
        assert(names[i as int] == matching@[i as int]@);
        r.push(player_command(matching[i].as_str(), pause));
        i += 1;
    }
    assert(command_lines(r@) =~= player_lines(names, pause));
    r
}

/// Media is controlled for applications which have a name.
pub proof fn law_only_named_apps_are_controlled(app_id: Option<String>)
    ensures
        app_id is None ==> !controllable(app_id),
        app_id matches Some(id) ==> (controllable(app_id) <==> id@ != Seq::<char>::empty()),
{
    if let Some(id) = app_id {
        if id@.len() == 0 {
            assert(id@ =~= Seq::<char>::empty());
        }
    }
}

/// A stream is announced by a line with its number, at any indent.
pub proof fn law_streams_are_announced_by_number(
    line: Seq<char>,
    number: Seq<char>,
    rest: Seq<char>,
)
    ensures
        without_indent(line) == "Sink Input #"@ + rest ==> stream_of(line) is Some,
        without_indent(line) == "Sink Input #"@ + rest && words(rest).len() > 0 ==> stream_of(line)
            == Some(Some(words(rest)[0])),
        without_indent(line) == "Sink Input #"@ + rest && words(rest).len() == 0 ==> stream_of(line)
            == Some(None::<Seq<char>>),
        stream_of(line) == Some(Some(number)) ==> exists|tail: Seq<char>|
            without_indent(line) == #[trigger] ("Sink Input #"@ + tail) && words(tail).len() > 0
                && words(tail)[0] == number,
{
    law_prefixes_are_removed("Sink Input #"@, rest, without_indent(line));
    if stream_of(line) == Some(Some(number)) {
        let tail = without_prefix(without_indent(line), "Sink Input #"@)->0;
        assert(without_indent(line) == "Sink Input #"@ + tail);
    }
}

/// An application is named by the line for its ID, wherever the ID is found in it.
pub proof fn law_streams_are_named_by_their_portal(line: Seq<char>, app_id: Seq<char>)
    ensures
        names_app(line, app_id) ==> begins_with(
            without_indent(line),
            "pipewire.access.portal.app_id ="@,
        ) && occurs_in(app_id, without_indent(line)),
        begins_with(without_indent(line), "pipewire.access.portal.app_id ="@) && occurs_in(
            app_id,
            without_indent(line),
        ) ==> names_app(line, app_id),
{
}

/// The lines after a stream's announcement are about it, until the next announcement.
pub proof fn law_lines_belong_to_the_last_announcement(list: Seq<Seq<char>>, n: int, at: int)
    requires
        0 <= at < n <= list.len(),
        forall|i: int| at < i < n ==> stream_of(#[trigger] list[i]) is None,
    ensures
        stream_of(list[at]) matches Some(stream) ==> current_stream(list, n) == stream,
        at == 0 && stream_of(list[0]) is None ==> current_stream(list, n) is None,
    decreases n,
{
    if at < n - 1 {
        assert(stream_of(list[n - 1]) is None);
        law_lines_belong_to_the_last_announcement(list, n - 1, at);
    } else if at == 0 {
        assert(current_stream(list, 0) is None);
    }
}

/// The streams of an application are those with a line which names it, in their order.
pub proof fn law_streams_of_an_app(list: Seq<Seq<char>>, app_id: Seq<char>, stream: Seq<char>)
    ensures
        app_streams(list, app_id, list.len() as int).contains(stream) <==> exists|i: int|
            0 <= i < list.len() && names_app(#[trigger] list[i], app_id) && stream_of(list[i])
                is None && current_stream(list, i) == Some(stream),
        app_streams(list, app_id, 0).len() == 0,
        forall|n: int|
            0 <= n < list.len() ==> (#[trigger] app_streams(list, app_id, n)).is_prefix_of(
                app_streams(list, app_id, n + 1),
            ),
{
    lemma_app_streams(list, app_id, stream, list.len() as int);
}

proof fn lemma_app_streams(list: Seq<Seq<char>>, app_id: Seq<char>, stream: Seq<char>, n: int)
    requires
        0 <= n <= list.len(),
    ensures
        app_streams(list, app_id, n).contains(stream) <==> exists|i: int|
            0 <= i < n && names_app(#[trigger] list[i], app_id) && stream_of(list[i]) is None
                && current_stream(list, i) == Some(stream),
    decreases n,
{
    if n > 0 {
        lemma_app_streams(list, app_id, stream, n - 1);
        let before = app_streams(list, app_id, n - 1);
        let after = app_streams(list, app_id, n);
        if before.contains(stream) {
            let k = choose|k: int| 0 <= k < before.len() && before[k] == stream;
            assert(after[k] == stream);
        }
        if names_app(list[n - 1], app_id) && stream_of(list[n - 1]) is None && current_stream(
            list,
            n - 1,
        ) == Some(stream) {
            assert(after[before.len() as int] == stream);
        }
        if after.contains(stream) {
            let k = choose|k: int| 0 <= k < after.len() && after[k] == stream;
            if k < before.len() {
                assert(before[k] == stream);
            } else {
                assert(names_app(list[n - 1], app_id));
            }
        }
    }
}

/// Each stream is muted or unmuted by a command of its own.
pub proof fn law_streams_are_muted_one_by_one(streams: Seq<Seq<char>>, cork: bool, at: int)
    requires
        0 <= at < streams.len(),
    ensures
        mute_lines(streams, cork).len() == streams.len(),
        cork ==> mute_lines(streams, cork)[at] == seq![
            "pactl"@,
            "set-sink-input-mute"@,
            streams[at],
            "1"@,
        ],
        !cork ==> mute_lines(streams, cork)[at] == seq![
            "pactl"@,
            "set-sink-input-mute"@,
            streams[at],
            "0"@,
        ],
{
}

/// Each player is paused or resumed by a command of its own.
pub proof fn law_players_are_controlled_one_by_one(players: Seq<Seq<char>>, pause: bool, at: int)
    requires
        0 <= at < players.len(),
    ensures
        player_lines(players, pause).len() == players.len(),
        pause ==> player_lines(players, pause)[at] == seq![
            "playerctl"@,
            "-p"@,
            players[at],
            "pause"@,
        ],
        !pause ==> player_lines(players, pause)[at] == seq![
            "playerctl"@,
            "-p"@,
            players[at],
            "play"@,
        ],
{
}

/// Names overlap if one of them is found in the other one, whichever that is.
pub proof fn law_overlapping_names(a: Seq<char>, b: Seq<char>)
    ensures
        occurs_in(a, b) ==> overlaps(a, b) && overlaps(b, a),
        overlaps(a, b) ==> occurs_in(a, b) || occurs_in(b, a),
        overlaps(a, a),
{
    assert(a.subrange(0, a.len() as int) =~= a);
    assert(found_at(a, a, 0));
}

/// A player belongs to an application if their names overlap in lower case.
///
/// Players are listed in their order.
pub proof fn law_players_of_an_app(
    list: Seq<Seq<char>>,
    app_id: Seq<char>,
    player: Seq<char>,
    n: int,
)
    requires
        0 <= n < list.len(),
    ensures
        listed_players(list, app_id, 0).len() == 0,
        occurs_in(lower_case(app_id), lower_case(list[n])) || occurs_in(
            lower_case(list[n]),
            lower_case(app_id),
        ) ==> listed_players(list, app_id, n + 1) == listed_players(list, app_id, n) + seq![list[n]],
        !occurs_in(lower_case(app_id), lower_case(list[n])) && !occurs_in(
            lower_case(list[n]),
            lower_case(app_id),
        ) ==> listed_players(list, app_id, n + 1) == listed_players(list, app_id, n),
{
}

/// Players with a name in lower case are chosen by that name, in their order.
pub proof fn law_players_are_chosen_by_lower_case(
    players: Seq<Player>,
    app_lower: Seq<char>,
    n: int,
)
    requires
        0 <= n < players.len(),
    ensures
        app_players(players, app_lower, 0).len() == 0,
        occurs_in(app_lower, players[n].lower@) || occurs_in(players[n].lower@, app_lower)
            ==> app_players(players, app_lower, n + 1) == app_players(players, app_lower, n) + seq![
            players[n].name@,
        ],
        !occurs_in(app_lower, players[n].lower@) && !occurs_in(players[n].lower@, app_lower)
            ==> app_players(players, app_lower, n + 1) == app_players(players, app_lower, n),
{
}

/// All streams and players of a named application are controlled, and none without a name.
pub proof fn law_media_of_an_app_is_controlled(
    app_id: Option<String>,
    flag: bool,
    list: Seq<Seq<char>>,
)
    ensures
        app_id is None ==> {
            &&& cork_lines(app_id, flag, list).len() == 0
            &&& control_lines(app_id, flag, list).len() == 0
            &&& known_player_lines(app_id, flag).len() == 0
        },
        app_id matches Some(id) ==> id@.len() == 0 ==> {
            &&& cork_lines(app_id, flag, list).len() == 0
            &&& control_lines(app_id, flag, list).len() == 0
            &&& known_player_lines(app_id, flag).len() == 0
        },
        app_id matches Some(id) ==> id@.len() > 0 ==> {
            &&& cork_lines(app_id, flag, list) == mute_lines(
                app_streams(list, id@, list.len() as int),
                flag,
            )
            &&& control_lines(app_id, flag, list) == player_lines(
                listed_players(list, id@, list.len() as int),
                flag,
            )
            &&& !occurs_in("jellyfin"@, id@) ==> known_player_lines(app_id, flag).len() == 0
            &&& occurs_in("jellyfin"@, id@) && flag ==> known_player_lines(app_id, flag) == seq![
                seq!["playerctl"@, "-p"@, "jellyfinmediaplayer"@, "pause"@],
            ]
            &&& occurs_in("jellyfin"@, id@) && !flag ==> known_player_lines(app_id, flag) == seq![
                seq!["playerctl"@, "-p"@, "jellyfinmediaplayer"@, "play"@],
            ]
        },
{
}

} // verus!
