use vstd::prelude::*;

verus! {

/// A saved playlist: a name and the folder it plays.
#[derive(Clone, Debug)]
pub struct PlaylistEntry {
    pub name: String,
    pub path: String,
}

/// A playlist entry with its strings as characters.
pub struct EntryView {
    pub name: Seq<char>,
    pub path: Seq<char>,
}

impl View for PlaylistEntry {
    type V = EntryView;

    open spec fn view(&self) -> EntryView {
        EntryView { name: self.name@, path: self.path@ }
    }
}

/// The saved settings: the list of playlists.
#[derive(Debug)]
pub struct Config {
    pub playlists: Vec<PlaylistEntry>,
}

impl View for Config {
    type V = Seq<EntryView>;

    open spec fn view(&self) -> Seq<EntryView> {
        self.playlists@.map_values(|e: PlaylistEntry| e@)
    }
}

impl Default for Config {
    /// The settings with no playlist.
    fn default() -> (r: Config)
        ensures
            r@ == Seq::<EntryView>::empty(),
    {
        let r = Config { playlists: Vec::new() };
        assert(r@ =~= Seq::<EntryView>::empty());
        r
    }
}

impl Config {
    /// Appends a playlist; saving the settings is left to the caller.
    pub fn add_playlist(&mut self, name: String, path: String)
        ensures
            final(self)@ == old(self)@.push(EntryView { name: name@, path: path@ }),
    {
        self.playlists.push(PlaylistEntry { name, path });
        assert(self@ =~= old(self)@.push(EntryView { name: name@, path: path@ }));
    }
}

} // verus!
