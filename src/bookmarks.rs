//! Bookmarks and their folders.

use vstd::prelude::*;
use crate::text::{contains_seq, contains_str, lower_of, lowercase, str_eq};

verus! {

/// A bookmark; `created_at` is in seconds since the Unix epoch.
#[derive(Debug, Clone)]
pub struct Bookmark {
    pub id: String,
    pub title: String,
    pub url: String,
    pub favicon: Option<String>,
    pub folder_id: Option<String>,
    pub created_at: i64,
    pub tags: Vec<String>,
}

#[derive(Debug, Clone)]
pub struct BookmarkFolder {
    pub id: String,
    pub name: String,
    pub parent_id: Option<String>,
    pub created_at: i64,
}

pub open spec fn bookmark_values(s: Seq<&Bookmark>) -> Seq<Bookmark> {
    s.map_values(|b: &Bookmark| *b)
}

/// The bookmark's title, URL or a tag contains the lowercased query `q`,
/// ignoring case.
pub open spec fn bookmark_matches(b: Bookmark, q: Seq<char>) -> bool {
    contains_seq(lower_of(b.title@), q) || contains_seq(lower_of(b.url@), q) || exists|i: int|
        0 <= i < b.tags@.len() && contains_seq(lower_of((#[trigger] b.tags@[i])@), q)
}

pub open spec fn in_folder(b: Bookmark, folder: Seq<char>) -> bool {
    b.folder_id matches Some(f) && f@ == folder
}

/// Bookmarks in the order they were added, and folders.
pub struct BookmarkStore {
    bookmarks: Vec<Bookmark>,
    folders: Vec<BookmarkFolder>,
}

impl BookmarkStore {
    pub closed spec fn items(&self) -> Seq<Bookmark> {
        self.bookmarks@
    }

    pub closed spec fn folder_list(&self) -> Seq<BookmarkFolder> {
        self.folders@
    }

    /// The folders.
    pub fn folders(&self) -> (r: &Vec<BookmarkFolder>)
        ensures
            r@ == self.folder_list(),
    {
        &self.folders
    }

    /// An empty store with the toolbar and "other" folders, made at `now`.
    pub fn with_default_folders(now: i64) -> (r: Self)
        ensures
            r.items().len() == 0,
            r.folder_list().len() == 2,
            r.folder_list()[0].id@ == "toolbar"@ && r.folder_list()[0].name@ == "Bookmarks Toolbar"@,
            r.folder_list()[1].id@ == "other"@ && r.folder_list()[1].name@ == "Other Bookmarks"@,
            r.folder_list()[0].parent_id is None && r.folder_list()[1].parent_id is None,
    {
        let mut folders: Vec<BookmarkFolder> = Vec::new();
        folders.push(
            BookmarkFolder {
                id: "toolbar".to_owned(),
                name: "Bookmarks Toolbar".to_owned(),
                parent_id: None,
                created_at: now,
            },
        );
        folders.push(
            BookmarkFolder {
                id: "other".to_owned(),
                name: "Other Bookmarks".to_owned(),
                parent_id: None,
                created_at: now,
            },
        );
        BookmarkStore { bookmarks: Vec::new(), folders }
    }

    /// Adds a bookmark with the fresh id `id`, made at `now`; returns the id.
    pub fn add_bookmark(
        &mut self,
        id: &str,
        title: &str,
        url: &str,
        folder_id: Option<&str>,
        now: i64,
    ) -> (r: String)
        ensures
            r@ == id@,
            final(self).items().drop_last() == old(self).items(),
            final(self).folder_list() == old(self).folder_list(),
            final(self).items().len() == old(self).items().len() + 1,
            ({
                let b = final(self).items().last();
                &&& b.id@ == id@
                &&& b.title@ == title@
                &&& b.url@ == url@
                &&& b.favicon is None
                &&& match folder_id {
                    Some(f) => in_folder(b, f@),
                    None => b.folder_id is None,
                }
                &&& b.created_at == now
                &&& b.tags@.len() == 0
            }),
    {
        let folder = match folder_id {
            Some(f) => Some(f.to_owned()),
            None => None,
        };
        self.bookmarks.push(
            Bookmark {
                id: id.to_owned(),
                title: title.to_owned(),
                url: url.to_owned(),
                favicon: None,
                folder_id: folder,
                created_at: now,
                tags: Vec::new(),
            },
        );
        assert(self.bookmarks@.drop_last() =~= old(self).bookmarks@);
        id.to_owned()
    }

    fn index_by_id(&self, id: &str) -> (r: Option<usize>)
        ensures
            r matches Some(i) ==> i < self.items().len() && self.items()[i as int].id@ == id@,
            r is None ==> forall|j: int|
                0 <= j < self.items().len() ==> (#[trigger] self.items()[j]).id@ != id@,
    {
        let mut i: usize = 0;
        while i < self.bookmarks.len()
            invariant
                i <= self.bookmarks@.len(),
                forall|j: int| 0 <= j < i ==> (#[trigger] self.bookmarks@[j]).id@ != id@,
            decreases self.bookmarks@.len() - i,
        {
            if str_eq(self.bookmarks[i].id.as_str(), id) {
                return Some(i);
            }
            i = i + 1;
        }
        None
    }

    /// Removes the bookmark `id`; false when there is none.
    pub fn remove_bookmark(&mut self, id: &str) -> (r: bool)
        ensures
            r == exists|j: int|
                0 <= j < old(self).items().len() && (#[trigger] old(self).items()[j]).id@ == id@,
            !r ==> final(self).items() == old(self).items(),
            r ==> exists|p: int|
                0 <= p < old(self).items().len() && old(self).items()[p].id@ == id@ && final(self).items() == old(self).items().remove(p),
    {
        match self.index_by_id(id) {
            Some(i) => {
                self.bookmarks.remove(i);
                true
            },
            None => false,
        }
    }

    /// The bookmark `id`, if present.
    pub fn get_bookmark(&self, id: &str) -> (r: Option<&Bookmark>)
        ensures
            r matches Some(b) ==> b.id@ == id@ && self.items().contains(*b),
            r is None ==> forall|j: int|
                0 <= j < self.items().len() ==> (#[trigger] self.items()[j]).id@ != id@,
    {
        match self.index_by_id(id) {
            Some(i) => {
                assert(self.items()[i as int] == self.bookmarks@[i as int]);
                Some(&self.bookmarks[i])
            },
            None => None,
        }
    }

    /// All bookmarks, in the order they were added.
    pub fn get_all_bookmarks(&self) -> (r: &Vec<Bookmark>)
        ensures
            r@ == self.items(),
    {
        &self.bookmarks
    }

    /// The bookmarks of a folder, in order.
    pub fn get_bookmarks_in_folder(&self, folder_id: &str) -> (r: Vec<&Bookmark>)
        ensures
            bookmark_values(r@) == self.items().filter(|b: Bookmark| in_folder(b, folder_id@)),
    {
        let mut r: Vec<&Bookmark> = Vec::new();
        let mut i: usize = 0;
        while i < self.bookmarks.len()
            invariant
                i <= self.bookmarks@.len(),
                bookmark_values(r@) == self.bookmarks@.subrange(0, i as int).filter(
                    |b: Bookmark| in_folder(b, folder_id@),
                ),
            decreases self.bookmarks@.len() - i,
        {
            proof {
                reveal(Seq::filter);
                assert(self.bookmarks@.subrange(0, i + 1).drop_last() =~= self.bookmarks@.subrange(
                    0,
                    i as int,
                ));
            }
            let ghost before = r@;
            let keep = match &self.bookmarks[i].folder_id {
                Some(f) => str_eq(f.as_str(), folder_id),
                None => false,
            };
            if keep {
                r.push(&self.bookmarks[i]);
                assert(bookmark_values(r@) =~= bookmark_values(before).push(
                    self.bookmarks@[i as int],
                ));
            }
            i = i + 1;
        }
        assert(self.bookmarks@.subrange(0, i as int) =~= self.bookmarks@);
        r
    }

    fn matches(b: &Bookmark, q: &str) -> (r: bool)
        ensures
            r == bookmark_matches(*b, q@),
    {
        if contains_str(lowercase(b.title.as_str()).as_str(), q) || contains_str(
            lowercase(b.url.as_str()).as_str(),
            q,
        ) {
            return true;
        }
        let mut k: usize = 0;
        while k < b.tags.len()
            invariant
                k <= b.tags@.len(),
                forall|j: int|
                    0 <= j < k ==> !contains_seq(lower_of((#[trigger] b.tags@[j])@), q@),
            decreases b.tags@.len() - k,
        {
            if contains_str(lowercase(b.tags[k].as_str()).as_str(), q) {
                return true;
            }
            k = k + 1;
        }
        false
    }

    /// The bookmarks whose title, URL or a tag contains the query, ignoring
    /// case, in order.
    pub fn search_bookmarks(&self, query: &str) -> (r: Vec<&Bookmark>)
        ensures
            bookmark_values(r@) == self.items().filter(
                |b: Bookmark| bookmark_matches(b, lower_of(query@)),
            ),
    {
        let q = lowercase(query);
        let mut r: Vec<&Bookmark> = Vec::new();
        let mut i: usize = 0;
        while i < self.bookmarks.len()
            invariant
                q@ == lower_of(query@),
                i <= self.bookmarks@.len(),
                bookmark_values(r@) == self.bookmarks@.subrange(0, i as int).filter(
                    |b: Bookmark| bookmark_matches(b, lower_of(query@)),
                ),
            decreases self.bookmarks@.len() - i,
        {
            proof {
                reveal(Seq::filter);
                assert(self.bookmarks@.subrange(0, i + 1).drop_last() =~= self.bookmarks@.subrange(
                    0,
                    i as int,
                ));
            }
            let ghost before = r@;
            if Self::matches(&self.bookmarks[i], q.as_str()) {
                r.push(&self.bookmarks[i]);
                assert(bookmark_values(r@) =~= bookmark_values(before).push(
                    self.bookmarks@[i as int],
                ));
            }
            i = i + 1;
        }
        assert(self.bookmarks@.subrange(0, i as int) =~= self.bookmarks@);
        r
    }
}

} // verus!
