//! One served game.

use vstd::prelude::*;
use crate::web::{join_path, join_spec};

verus! {

/// A game that the server serves.
pub struct Game {
    /// The game's name; requests name it in their path.
    pub name: String,
    /// The directory that holds the game's files.
    pub root: String,
    /// The page served for the game's own path.
    pub index: String,
    /// Where the saves of this game are kept.
    pub save_dir: String,
    /// Whether the setup of the save mod is skipped when the server starts.
    pub init_mod: bool,
}

impl Game {
    /// Whether the save mod is installed into the game when the server
    /// starts: unless the configuration asks to skip that setup.
    pub fn installs_mod(&self) -> (b: bool)
        ensures
            b == !self.init_mod,
    {
        !self.init_mod
    }

    /// The index page that the configuration names, under the game's root;
    /// `None` when it names none.
    pub fn configured_index(&self) -> (res: Option<String>)
        ensures
            self.index@.len() == 0 ==> res is None,
            self.index@.len() > 0 ==> (res matches Some(p) && p@ == join_spec(self.root@, self.index@)),
    {
        if self.index.as_str().is_empty() {
            None
        } else {
            Some(join_path(self.root.as_str(), self.index.as_str()))
        }
    }

    /// The glob pattern of the HTML pages directly under the game's root.
    pub fn html_pattern(&self) -> (p: String)
        ensures
            p@ == join_spec(self.root@, "*.html"@),
    {
        join_path(self.root.as_str(), "*.html")
    }

    /// Completes the game's settings once its directories have been looked
    /// at: the save directory becomes `absolute_save_dir`, and the index page
    /// becomes the configured one when it exists (`existing_index`), or else
    /// the first HTML page found under the root. There must be a page.
    pub fn init(&mut self, absolute_save_dir: String, existing_index: Option<String>, html_pages: Vec<String>)
        requires
            existing_index is Some || html_pages@.len() > 0,
        ensures
            final(self).save_dir@ == absolute_save_dir@,
            existing_index matches Some(i) ==> final(self).index@ == i@,
            existing_index is None ==> final(self).index@ == html_pages@[0]@,
            final(self).name@ == old(self).name@,
            final(self).root@ == old(self).root@,
            final(self).init_mod == old(self).init_mod,
    {
        self.save_dir = absolute_save_dir;
        match existing_index {
            Some(i) => {
                self.index = i;
            },
            None => {
                self.index = html_pages[0].clone();
            },
        }
    }
}

} // verus!
