//! The directory model: the children of a directory as a list that follows
//! what happens in the directory, and the deltas that let a subscriber
//! follow the list.

use crate::file::File;
use crate::file_info::{key_name, text_at, AttributeValue, FileInfo};
use crate::text::str_eq;
use vstd::prelude::*;

verus! {

/// What a metadata bag holds.
pub type Bag = Map<Seq<char>, AttributeValue>;

/// A delta of the list of children.
#[derive(Debug)]
pub enum DirectoryUpdate {
    /// The list is this one.
    Initial(Vec<FileInfo>),
    /// This child was added at the end.
    Added(FileInfo),
    /// This child was removed.
    Removed(FileInfo),
    /// The child of this name is now this one.
    Changed(FileInfo),
}

/// What a delta holds.
pub enum UpdateView {
    Initial(Seq<Bag>),
    Added(Bag),
    Removed(Bag),
    Changed(Bag),
}

/// What a list of metadata bags holds.
pub open spec fn bags(list: Seq<FileInfo>) -> Seq<Bag> {
    Seq::new(list.len(), |i: int| list[i]@)
}

impl View for DirectoryUpdate {
    type V = UpdateView;

    open spec fn view(&self) -> UpdateView {
        match self {
            DirectoryUpdate::Initial(list) => UpdateView::Initial(bags(list@)),
            DirectoryUpdate::Added(info) => UpdateView::Added(info@),
            DirectoryUpdate::Removed(info) => UpdateView::Removed(info@),
            DirectoryUpdate::Changed(info) => UpdateView::Changed(info@),
        }
    }
}

/// The name that a bag states.
pub open spec fn name_of(bag: Bag) -> Option<Seq<char>> {
    text_at(bag, key_name())
}

/// The position of the first child of the given name, or the length of the
/// list where no child has it.
pub open spec fn position_of_name(list: Seq<Bag>, name: Seq<char>) -> int
    decreases list.len(),
{
    if list.len() == 0 {
        0
    } else if name_of(list[0]) == Some(name) {
        0
    } else {
        1 + position_of_name(list.skip(1), name)
    }
}

/// What `position_of_name` finds is the first child of the name.
pub proof fn lemma_position_of_name(list: Seq<Bag>, name: Seq<char>)
    ensures
        0 <= position_of_name(list, name) <= list.len(),
        position_of_name(list, name) < list.len() ==> name_of(list[position_of_name(list, name)])
            == Some(name),
        forall|j: int|
            0 <= j < position_of_name(list, name) ==> name_of(#[trigger] list[j]) != Some(name),
    decreases list.len(),
{
    if list.len() > 0 && name_of(list[0]) != Some(name) {
        lemma_position_of_name(list.skip(1), name);
        assert forall|j: int| 0 <= j < position_of_name(list, name) implies name_of(
            #[trigger] list[j],
        ) != Some(name) by {
            if j > 0 {
                assert(list.skip(1)[j - 1] == list[j]);
            }
        }
    }
}

/// The list after a delta. `Initial` sets the list. `Added` puts a child at
/// the end. `Removed` takes out the first child of the name of the removed
/// one. `Changed` puts the child in the place of the first child of its
/// name. A delta for a name that no child has leaves the list as it is.
pub open spec fn replay_one(list: Seq<Bag>, update: UpdateView) -> Seq<Bag> {
    match update {
        UpdateView::Initial(snapshot) => snapshot,
        UpdateView::Added(bag) => list.push(bag),
        UpdateView::Removed(bag) => match name_of(bag) {
            Some(name) => {
                let at = position_of_name(list, name);
                if at < list.len() {
                    list.remove(at)
                } else {
                    list
                }
            },
            None => list,
        },
        UpdateView::Changed(bag) => match name_of(bag) {
            Some(name) => {
                let at = position_of_name(list, name);
                if at < list.len() {
                    list.update(at, bag)
                } else {
                    list
                }
            },
            None => list,
        },
    }
}

/// The list after a run of deltas.
pub open spec fn replay(list: Seq<Bag>, updates: Seq<UpdateView>) -> Seq<Bag>
    decreases updates.len(),
{
    if updates.len() == 0 {
        list
    } else {
        replay_one(replay(list, updates.drop_last()), updates.last())
    }
}

/// A subscriber that starts from the snapshot and replays the deltas in the
/// order in which they were sent holds the list of the model: if each state
/// of the model is the state before it after the delta that was sent, the
/// last state is the snapshot after all deltas.
pub proof fn lemma_replay_follows_model(states: Seq<Seq<Bag>>, updates: Seq<UpdateView>)
    requires
        states.len() == updates.len() + 1,
        forall|i: int|
            0 <= i < updates.len() ==> #[trigger] states[i + 1] == replay_one(states[i], updates[i]),
    ensures
        states.last() == replay(states[0], updates),
    decreases updates.len(),
{
    if updates.len() > 0 {
        let n = updates.len() as int;
        let before = states.drop_last();
        let sent = updates.drop_last();
        assert forall|i: int| 0 <= i < sent.len() implies #[trigger] before[i + 1] == replay_one(
            before[i],
            sent[i],
        ) by {
            assert(states[i + 1] == replay_one(states[i], updates[i]));
        }
        lemma_replay_follows_model(before, sent);
        assert(before.last() == states[n - 1]);
        assert(states[n - 1 + 1] == replay_one(states[n - 1], updates[n - 1]));
    }
}

/// What the monitor of the directory reported, with what a query of the
/// child's metadata gave where one was made.
#[derive(Debug)]
pub enum DirectoryEvent {
    /// A child was created; its metadata, if the query succeeded.
    Created(Option<FileInfo>),
    /// The child of this name was deleted.
    Deleted(String),
    /// A child changed; its metadata, if the query succeeded.
    Changed(Option<FileInfo>),
    /// Anything else.
    Other,
}

/// The model of a directory: its handle and the list of its children, in
/// the order in which they came.
pub struct DirectoryModel<F: File> {
    file: F,
    files: Vec<FileInfo>,
}

impl<F: File> View for DirectoryModel<F> {
    type V = Seq<Bag>;

    /// The list of children.
    closed spec fn view(&self) -> Seq<Bag> {
        bags(self.files@)
    }
}

/// The position of the first child of the given name.
fn find_by_name(files: &Vec<FileInfo>, name: &str) -> (r: usize)
    ensures
        r == position_of_name(bags(files@), name@),
        r <= files@.len(),
{
    let ghost list = bags(files@);
    let mut i: usize = 0;
    assert(list.skip(0) == list);
    while i < files.len()
        invariant
            i <= files.len(),
            list == bags(files@),
            position_of_name(list, name@) == i + position_of_name(list.skip(i as int), name@),
        decreases files.len() - i,
    {
        proof {
            assert(list.skip(i as int)[0] == files@[i as int]@);
            assert(list.skip(i as int).skip(1) == list.skip(i + 1));
        }
        let hit = match files[i].get_name() {
            Some(n) => str_eq(n, name),
            None => false,
        };
        if hit {
            return i;
        }
        i = i + 1;
    }
    assert(list.skip(files.len() as int).len() == 0);
    i
}

impl<F: File> DirectoryModel<F> {
    /// The handle of the directory.
    pub closed spec fn spec_file(&self) -> F {
        self.file
    }

    /// The model of the directory `file`, with no children yet.
    pub fn new(file: F) -> (r: Self)
        ensures
            r@ == Seq::<Bag>::empty(),
            r.spec_file() == file,
    {
        let r = DirectoryModel { file, files: Vec::new() };
        assert(r@ =~= Seq::<Bag>::empty());
        r
    }

    /// The handle of the directory.
    pub fn file(&self) -> (r: &F)
        ensures
            *r == self.spec_file(),
    {
        &self.file
    }

    /// The list of children, as it is now.
    pub fn files(&self) -> (r: Vec<FileInfo>)
        ensures
            bags(r@) == self@,
    {
        let mut out: Vec<FileInfo> = Vec::new();
        let mut i: usize = 0;
        while i < self.files.len()
            invariant
                i <= self.files.len(),
                bags(out@) == bags(self.files@).take(i as int),
            decreases self.files.len() - i,
        {
            let ghost before = bags(out@);
            let copy = self.files[i].clone();
            out.push(copy);
            assert(bags(out@) =~= before.push(copy@));
            assert(bags(self.files@).take(i + 1) =~= bags(self.files@).take(i as int).push(
                self.files@[i as int]@,
            ));
            i = i + 1;
        }
        assert(bags(self.files@).take(self.files.len() as int) == bags(self.files@));
        out
    }

    /// Sets the list to the snapshot that an enumeration of the directory
    /// gave, and returns the delta to send: `Initial` with the snapshot.
    pub fn load(&mut self, snapshot: Vec<FileInfo>) -> (r: DirectoryUpdate)
        ensures
            final(self)@ == bags(snapshot@),
            r@ == UpdateView::Initial(bags(snapshot@)),
            final(self)@ == replay_one(old(self)@, r@),
            final(self).spec_file() == old(self).spec_file(),
    {
        self.files = snapshot;
        let copy = self.files();
        DirectoryUpdate::Initial(copy)
    }

    /// Follows one report of the monitor, and returns the delta to send, if
    /// any. A created child is put at the end. A deleted child is taken
    /// out, and the delta carries its metadata as the list had it; a
    /// deletion of a name that no child has changes nothing and sends
    /// nothing. A changed child takes the place of the first child of its
    /// name, and the delta is sent even where no child has the name. A
    /// report whose query failed, and any other report, changes nothing
    /// and sends nothing. In every case the list after the call is the
    /// list before it after the delta.
    pub fn apply(&mut self, event: DirectoryEvent) -> (r: Option<DirectoryUpdate>)
        ensures
            final(self).spec_file() == old(self).spec_file(),
            match r {
                Some(update) => final(self)@ == replay_one(old(self)@, update@),
                None => final(self)@ == old(self)@,
            },
            match event {
                DirectoryEvent::Created(Some(info)) => r matches Some(u) && u@ == UpdateView::Added(
                    info@,
                ),
                DirectoryEvent::Created(None) => r is None,
                DirectoryEvent::Deleted(name) => {
                    let at = position_of_name(old(self)@, name@);
                    if at < old(self)@.len() {
                        r matches Some(u) && u@ == UpdateView::Removed(old(self)@[at])
                    } else {
                        r is None
                    }
                },
                DirectoryEvent::Changed(Some(info)) => r matches Some(u) && u@
                    == UpdateView::Changed(info@),
                DirectoryEvent::Changed(None) => r is None,
                DirectoryEvent::Other => r is None,
            },
    {
        let ghost before = bags(self.files@);
        match event {
            DirectoryEvent::Created(Some(info)) => {
                let copy = info.clone();
                self.files.push(info);
                assert(bags(self.files@) =~= before.push(info@));
                Some(DirectoryUpdate::Added(copy))
            },
            DirectoryEvent::Deleted(name) => {
                let at = find_by_name(&self.files, name.as_str());
                if at < self.files.len() {
                    let removed = self.files.remove(at);
                    proof {
                        lemma_position_of_name(before, name@);
                        assert(removed@ == before[at as int]);
                        assert(name_of(removed@) == Some(name@));
                        assert(bags(self.files@) =~= before.remove(at as int));
                    }
                    Some(DirectoryUpdate::Removed(removed))
                } else {
                    None
                }
            },
            DirectoryEvent::Changed(Some(info)) => {
                let copy = info.clone();
                let named = match info.get_name() {
                    Some(n) => Some(find_by_name(&self.files, n)),
                    None => None,
                };
                match named {
                    Some(at) => {
                        if at < self.files.len() {
                            self.files.set(at, info);
                            assert(bags(self.files@) =~= before.update(at as int, info@));
                        }
                    },
                    None => {},
                }
                Some(DirectoryUpdate::Changed(copy))
            },
            _ => None,
        }
    }
}

} // verus!
