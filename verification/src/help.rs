//! The static table behind the help screen.

use vstd::prelude::*;
use vstd::string::StringExecFns;
use crate::key::{default_bindings, default_keybinding, key_label};

verus! {

/// One line of the help table: what is done, the keys that do it, and the
/// part of the interface where they apply.
pub open spec fn help_line(description: Seq<char>, keys: Seq<char>, context: Seq<char>) -> Seq<
    Seq<char>,
> {
    seq![description, keys, context]
}

/// The help table, line by line.
pub open spec fn help_table() -> Seq<Seq<Seq<char>>> {
    seq![
        help_line(
            "Jump to current play context"@,
            key_label(default_bindings().jump_to_all_context),
            "General"@,
        ),
        help_line("Move selection left"@, "h | <Left Arrow Key> | <Ctrl+b>"@, "General"@),
        help_line("Move selection down"@, "j | <Down Arrow Key> | <Ctrl+n>"@, "General"@),
        help_line("Move selection up"@, "k | <Up Arrow Key> | <Ctrl+p>"@, "General"@),
        help_line("Move selection right"@, "l | <Right Arrow Key> | <Ctrl+f>"@, "General"@),
        help_line("Move selection to top of list"@, "H"@, "General"@),
        help_line("Move selection to middle of list"@, "M"@, "General"@),
        help_line("Move selection to bottom of list"@, "L"@, "General"@),
        help_line("Enter active mode"@, "<Enter>"@, "General"@),
        help_line("Enter hover mode"@, "<Esc>"@, "Selected block"@),
        help_line("Save track in list or table"@, "s"@, "Selected block"@),
        help_line(
            "Start playback or enter album/artist/playlist"@,
            key_label(default_bindings().submit),
            "Selected block"@,
        ),
        help_line("Play recommendations for song/artist"@, "r"@, "Selected block"@),
        help_line("Play all tracks for artist"@, "e"@, "Library -> Artists"@),
        help_line("Search with input text"@, "<Enter>"@, "Search input"@),
        help_line("Move cursor one space left"@, "<Left Arrow Key>"@, "Search input"@),
        help_line("Move cursor one space right"@, "<Right Arrow Key>"@, "Search input"@),
        help_line("Delete entire input"@, "<Ctrl+l>"@, "Search input"@),
        help_line("Delete text from cursor to start of input"@, "<Ctrl+u>"@, "Search input"@),
        help_line("Delete text from cursor to end of input"@, "<Ctrl+k>"@, "Search input"@),
        help_line("Delete previous word"@, "<Ctrl+w>"@, "Search input"@),
        help_line("Jump to start of input"@, "<Ctrl+a>"@, "Search input"@),
        help_line("Jump to end of input"@, "<Ctrl+e>"@, "Search input"@),
        help_line("Escape from the input back to hovered block"@, "<Esc>"@, "Search input"@),
        help_line("Delete saved album"@, "D"@, "Library -> Albums"@),
        help_line("Delete saved playlist"@, "D"@, "Playlist"@),
        help_line("Follow an artist/playlist"@, "w"@, "Search result"@),
        help_line("Save (like) album to library"@, "w"@, "Search result"@),
        help_line("Play random song in playlist"@, "S"@, "Selected Playlist"@),
        help_line("Toggle sort order of podcast episodes"@, "S"@, "Selected Show"@),
    ]
}

fn line(description: &str, keys: String, context: &str) -> (row: Vec<String>)
    ensures
        row.deep_view() == help_line(description@, keys@, context@),
{
    let mut row: Vec<String> = Vec::new();
    row.push(String::from_str(description));
    row.push(keys);
    row.push(String::from_str(context));
    assert(row.deep_view() =~= help_line(description@, keys@, context@));
    row
}

fn fixed(description: &str, keys: &str, context: &str) -> (row: Vec<String>)
    ensures
        row.deep_view() == help_line(description@, keys@, context@),
{
    line(description, String::from_str(keys), context)
}

/// The lines of the help screen, each a description, the keys and the
/// context in which they apply.
pub fn get_help_docs() -> (docs: Vec<Vec<String>>)
    ensures
        docs.deep_view() == help_table(),
{
    let bindings = default_keybinding();
    let mut docs: Vec<Vec<String>> = Vec::new();
    docs.push(line("Jump to current play context", bindings.jump_to_all_context.to_string(), "General"));
    docs.push(fixed("Move selection left", "h | <Left Arrow Key> | <Ctrl+b>", "General"));
    docs.push(fixed("Move selection down", "j | <Down Arrow Key> | <Ctrl+n>", "General"));
    docs.push(fixed("Move selection up", "k | <Up Arrow Key> | <Ctrl+p>", "General"));
    docs.push(fixed("Move selection right", "l | <Right Arrow Key> | <Ctrl+f>", "General"));
    docs.push(fixed("Move selection to top of list", "H", "General"));
    docs.push(fixed("Move selection to middle of list", "M", "General"));
    docs.push(fixed("Move selection to bottom of list", "L", "General"));
    docs.push(fixed("Enter active mode", "<Enter>", "General"));
    docs.push(fixed("Enter hover mode", "<Esc>", "Selected block"));
    docs.push(fixed("Save track in list or table", "s", "Selected block"));
    docs.push(line("Start playback or enter album/artist/playlist", bindings.submit.to_string(), "Selected block"));
    docs.push(fixed("Play recommendations for song/artist", "r", "Selected block"));
    docs.push(fixed("Play all tracks for artist", "e", "Library -> Artists"));
    docs.push(fixed("Search with input text", "<Enter>", "Search input"));
    docs.push(fixed("Move cursor one space left", "<Left Arrow Key>", "Search input"));
    docs.push(fixed("Move cursor one space right", "<Right Arrow Key>", "Search input"));
    docs.push(fixed("Delete entire input", "<Ctrl+l>", "Search input"));
    docs.push(fixed("Delete text from cursor to start of input", "<Ctrl+u>", "Search input"));
    docs.push(fixed("Delete text from cursor to end of input", "<Ctrl+k>", "Search input"));
    docs.push(fixed("Delete previous word", "<Ctrl+w>", "Search input"));
    docs.push(fixed("Jump to start of input", "<Ctrl+a>", "Search input"));
    docs.push(fixed("Jump to end of input", "<Ctrl+e>", "Search input"));
    docs.push(fixed("Escape from the input back to hovered block", "<Esc>", "Search input"));
    docs.push(fixed("Delete saved album", "D", "Library -> Albums"));
    docs.push(fixed("Delete saved playlist", "D", "Playlist"));
    docs.push(fixed("Follow an artist/playlist", "w", "Search result"));
    docs.push(fixed("Save (like) album to library", "w", "Search result"));
    docs.push(fixed("Play random song in playlist", "S", "Selected Playlist"));
    docs.push(fixed("Toggle sort order of podcast episodes", "S", "Selected Show"));
    assert(docs.deep_view() =~= help_table());
    docs
}

} // verus!
