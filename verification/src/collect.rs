//! Collecting the assets of a public directory.
//!
//! The collector never touches the file system. It says what it needs next
//! (is the directory there, what does it hold, what is in this file) and is
//! told the outcome; from that it decides which files become assets, under
//! which names, and when the directory is refused.

use vstd::prelude::*;
use crate::assets::AssetSet;
use crate::error::DeployError;
use crate::limits::Limits;
use crate::paths::{relative_path, relative_to};

verus! {

/// One entry that a walk of the public directory came upon, the directory
/// itself included.
pub enum WalkEntry {
    /// The walk could not read this entry; holds the system's account of why.
    Unreadable { reason: String },
    /// A regular file and its size in bytes.
    File { path: String, size: u64 },
    /// Anything that is not a regular file, such as a directory.
    Other { path: String },
}

/// Where a collector stands.
#[derive(Clone, Copy, Debug, PartialEq, Eq, Structural)]
pub enum CollectPhase {
    /// Waiting to hear whether the root exists and is a directory.
    Locating,
    /// Waiting for the entries of the root.
    Walking,
    /// Waiting for the content of one file.
    Reading,
    /// All assets are in.
    Done,
    /// The directory was refused or the outside work failed.
    Failed,
}

/// What a collector is told.
pub enum CollectEvent {
    /// Whether the root exists and is a directory.
    Located(bool),
    /// Every entry that the walk of the root came upon, in its order.
    Walked(Vec<WalkEntry>),
    /// The content of the file that was asked for.
    AssetRead(Vec<u8>),
    /// The outside work that was asked for failed.
    Failed(DeployError),
}

/// What a collector asks for.
pub enum CollectAction {
    /// Find out whether `dir` exists and is a directory.
    Locate { dir: String },
    /// Walk `dir` and list every entry.
    Walk { dir: String },
    /// Read the file at `path`.
    Read { path: String },
    /// Nothing more: the assets are complete.
    Finish,
    /// Nothing more: the collection failed.
    Abort,
}

/// Whether an entry lets the collection go on: it is no file, or it is a
/// file below the size limit that has a name relative to the root.
pub open spec fn admissible(entry: WalkEntry, root: Seq<char>, limits: Limits) -> bool {
    match entry {
        WalkEntry::Unreadable { .. } => false,
        WalkEntry::Other { .. } => true,
        WalkEntry::File { path, size } => size < limits.max_asset_size && relative_to(
            path@,
            root,
        ).is_some(),
    }
}

/// Whether `error` is the refusal that an inadmissible entry leads to.
pub open spec fn refusal(entry: WalkEntry, root: Seq<char>, limits: Limits, error: DeployError) -> bool {
    match entry {
        WalkEntry::Unreadable { reason } => error matches DeployError::Io(text) && text@ == reason@,
        WalkEntry::Other { .. } => false,
        WalkEntry::File { path, size } => if size >= limits.max_asset_size {
            error matches DeployError::AssetTooLarge { path: refused, max_size } && refused@
                == path@ && max_size == limits.max_asset_size
        } else {
            relative_to(path@, root).is_none() && (error matches DeployError::InvalidPath(refused)
                && refused@ == path@)
        },
    }
}

/// The first position at or after `from` that holds something other than
/// a non-file, or the number of entries where there is none.
pub open spec fn next_stop(entries: Seq<WalkEntry>, from: int) -> int
    decreases entries.len() - from,
{
    if from < 0 || from >= entries.len() {
        entries.len() as int
    } else if entries[from] is Other {
        next_stop(entries, from + 1)
    } else {
        from
    }
}

/// The assets after the first `n` entries: `base`, and over it, for each
/// file among them in order, the content at its position in `contents`
/// under its name relative to `root`.
pub open spec fn gathered(
    base: Map<Seq<char>, Seq<u8>>,
    entries: Seq<WalkEntry>,
    root: Seq<char>,
    contents: Seq<Seq<u8>>,
    n: int,
) -> Map<Seq<char>, Seq<u8>>
    decreases n,
{
    if n <= 0 {
        base
    } else {
        let before = gathered(base, entries, root, contents, n - 1);
        match entries[n - 1] {
            WalkEntry::File { path, .. } => match relative_to(path@, root) {
                Some(name) => before.insert(name, contents[n - 1]),
                None => before,
            },
            _ => before,
        }
    }
}

/// The name that the entry at position `i` is stored under, where it is a
/// file that has one.
pub open spec fn asset_name(entries: Seq<WalkEntry>, root: Seq<char>, i: int) -> Option<Seq<char>> {
    match entries[i] {
        WalkEntry::File { path, .. } => relative_to(path@, root),
        _ => None,
    }
}

/// Every file among the first `n` entries is found in what was gathered,
/// under its relative name, with the content at its position, unless a later
/// file among them has the same name. Nothing else is added to `base`.
pub proof fn lemma_gathered(
    base: Map<Seq<char>, Seq<u8>>,
    entries: Seq<WalkEntry>,
    root: Seq<char>,
    contents: Seq<Seq<u8>>,
    n: int,
)
    requires
        0 <= n <= entries.len(),
    ensures
        forall|i: int|
            0 <= i < n && asset_name(entries, root, i).is_some() && (forall|j: int|
                i < j < n ==> asset_name(entries, root, j) != asset_name(entries, root, i))
                ==> gathered(base, entries, root, contents, n).contains_key(
                #[trigger] asset_name(entries, root, i).unwrap(),
            ) && gathered(base, entries, root, contents, n)[asset_name(entries, root, i).unwrap()]
                == contents[i],
        forall|name: Seq<char>|
            #[trigger] gathered(base, entries, root, contents, n).contains_key(name) <==> (
            base.contains_key(name) || exists|i: int|
                0 <= i < n && asset_name(entries, root, i) == Some(name)),
        forall|name: Seq<char>|
            base.contains_key(name) && (forall|i: int|
                0 <= i < n ==> asset_name(entries, root, i) != Some(name)) ==> #[trigger] gathered(
                base,
                entries,
                root,
                contents,
                n,
            )[name] == base[name],
    decreases n,
{
    if n > 0 {
        lemma_gathered(base, entries, root, contents, n - 1);
        let before = gathered(base, entries, root, contents, n - 1);
        let now = gathered(base, entries, root, contents, n);
        assert forall|name: Seq<char>| #[trigger] now.contains_key(name) <==> (base.contains_key(
            name,
        ) || exists|i: int| 0 <= i < n && asset_name(entries, root, i) == Some(name)) by {
            if now.contains_key(name) {
                if before.contains_key(name) {
                    if !base.contains_key(name) {
                        let i = choose|i: int|
                            0 <= i < n - 1 && asset_name(entries, root, i) == Some(name);
                        assert(0 <= i < n && asset_name(entries, root, i) == Some(name));
                    }
                } else {
                    assert(asset_name(entries, root, n - 1) == Some(name));
                }
            }
            if exists|i: int| 0 <= i < n && asset_name(entries, root, i) == Some(name) {
                let i = choose|i: int| 0 <= i < n && asset_name(entries, root, i) == Some(name);
                if i < n - 1 {
                    assert(before.contains_key(name));
                }
            }
        }
        assert forall|i: int|
            0 <= i < n && asset_name(entries, root, i).is_some() && (forall|j: int|
                i < j < n ==> asset_name(entries, root, j) != asset_name(
                    entries,
                    root,
                    i,
                )) implies now.contains_key(#[trigger] asset_name(entries, root, i).unwrap())
            && now[asset_name(entries, root, i).unwrap()] == contents[i] by {
            if i < n - 1 {
                assert(asset_name(entries, root, n - 1) != asset_name(entries, root, i));
                assert forall|j: int| i < j < n - 1 implies asset_name(entries, root, j)
                    != asset_name(entries, root, i) by {}
            }
        }
    }
}

/// What was gathered from the first `n` entries depends on the first `n`
/// contents alone.
pub proof fn lemma_gathered_prefix(
    base: Map<Seq<char>, Seq<u8>>,
    entries: Seq<WalkEntry>,
    root: Seq<char>,
    first: Seq<Seq<u8>>,
    second: Seq<Seq<u8>>,
    n: int,
)
    requires
        forall|i: int| 0 <= i < n ==> first[i] == second[i],
    ensures
        gathered(base, entries, root, first, n) == gathered(base, entries, root, second, n),
    decreases n,
{
    if n > 0 {
        lemma_gathered_prefix(base, entries, root, first, second, n - 1);
    }
}

/// Whether two collectors work on the same directory under the same limits
/// from the same base.
pub open spec fn same_task(pre: AssetCollector, post: AssetCollector) -> bool {
    &&& post.root() == pre.root()
    &&& post.limits() == pre.limits()
    &&& post.base() == pre.base()
}

/// Whether `post` is where `pre` comes to rest when it moves on from
/// position `from` with `assets` in hand and `contents` handed in: every
/// non-file is passed over, and the first other entry decides. The end of
/// the entries completes the collection, an admissible file is asked for,
/// and anything else is refused.
pub open spec fn settled(
    pre: AssetCollector,
    entries: Seq<WalkEntry>,
    assets: Map<Seq<char>, Seq<u8>>,
    contents: Seq<Seq<u8>>,
    from: int,
    post: AssetCollector,
) -> bool {
    let stop = next_stop(entries, from);
    &&& same_task(pre, post)
    &&& post.entries() == entries
    &&& post.assets() == assets
    &&& post.cursor() == stop
    &&& post.contents() == contents + Seq::new(
        (stop - from) as nat,
        |i: int| Seq::<u8>::empty(),
    )
    &&& if stop == entries.len() {
        post.phase() is Done
    } else if admissible(entries[stop], pre.root(), pre.limits()) {
        post.phase() is Reading
    } else {
        post.phase() is Failed && post.error() is Some && refusal(
            entries[stop],
            pre.root(),
            pre.limits(),
            post.error().unwrap(),
        )
    }
}

/// Whether `post` is what `pre` becomes when it is told `event`.
///
/// While locating, a root that is no directory completes the collection with
/// the base alone. A walk that came upon as many entries as the limit, or
/// more, is refused before any file is asked for. The content of a file is
/// stored under the file's name relative to the root. A failure of the
/// outside work is kept as it came. An event that the phase does not wait
/// for changes nothing.
pub open spec fn collect_step(pre: AssetCollector, event: CollectEvent, post: AssetCollector) -> bool {
    match (pre.phase(), event) {
        (CollectPhase::Locating, CollectEvent::Located(found)) => {
            &&& same_task(pre, post)
            &&& post.entries() == pre.entries()
            &&& post.assets() == pre.assets()
            &&& post.cursor() == pre.cursor()
            &&& post.contents() == pre.contents()
            &&& if found {
                post.phase() is Walking
            } else {
                post.phase() is Done
            }
        },
        (CollectPhase::Walking, CollectEvent::Walked(entries)) => {
            if entries@.len() >= pre.limits().max_assets {
                &&& same_task(pre, post)
                &&& post.assets() == pre.assets()
                &&& post.phase() is Failed
                &&& post.error() matches Some(DeployError::TooManyAssets { limit })
                &&& limit == pre.limits().max_assets
            } else {
                settled(pre, entries@, pre.assets(), Seq::empty(), 0, post)
            }
        },
        (CollectPhase::Reading, CollectEvent::AssetRead(bytes)) => {
            settled(
                pre,
                pre.entries(),
                pre.assets().insert(
                    asset_name(pre.entries(), pre.root(), pre.cursor()).unwrap(),
                    bytes@,
                ),
                pre.contents().push(bytes@),
                pre.cursor() + 1,
                post,
            )
        },
        (CollectPhase::Locating, CollectEvent::Failed(error))
        | (CollectPhase::Walking, CollectEvent::Failed(error))
        | (CollectPhase::Reading, CollectEvent::Failed(error)) => {
            &&& same_task(pre, post)
            &&& post.assets() == pre.assets()
            &&& post.phase() is Failed
            &&& post.error() == Some(error)
        },
        _ => post == pre,
    }
}

/// Whether `action` is what a collector in this state asks for.
pub open spec fn collect_action(collector: AssetCollector, action: CollectAction) -> bool {
    match collector.phase() {
        CollectPhase::Locating => action matches CollectAction::Locate { dir } && dir@
            == collector.root(),
        CollectPhase::Walking => action matches CollectAction::Walk { dir } && dir@
            == collector.root(),
        CollectPhase::Reading => action matches CollectAction::Read { path }
            && collector.entries()[collector.cursor()] matches WalkEntry::File { path: wanted, .. }
            && path@ == wanted@,
        CollectPhase::Done => action is Finish,
        CollectPhase::Failed => action is Abort,
    }
}

/// The collection of one public directory, step by step.
pub struct AssetCollector {
    phase: CollectPhase,
    root: String,
    limits: Limits,
    assets: AssetSet,
    entries: Vec<WalkEntry>,
    cursor: usize,
    name: String,
    path: String,
    error: Option<DeployError>,
    base: Ghost<Map<Seq<char>, Seq<u8>>>,
    contents: Ghost<Seq<Seq<u8>>>,
}

impl AssetCollector {
    /// Where the collector stands.
    pub closed spec fn phase(&self) -> CollectPhase {
        self.phase
    }

    /// The directory that is collected.
    pub closed spec fn root(&self) -> Seq<char> {
        self.root@
    }

    /// The limits that the directory is held to.
    pub closed spec fn limits(&self) -> Limits {
        self.limits
    }

    /// The assets that are in so far.
    pub closed spec fn assets(&self) -> Map<Seq<char>, Seq<u8>> {
        self.assets@
    }

    /// The assets that the collection started from.
    pub closed spec fn base(&self) -> Map<Seq<char>, Seq<u8>> {
        self.base@
    }

    /// The entries of the root, once it was walked.
    pub closed spec fn entries(&self) -> Seq<WalkEntry> {
        self.entries@
    }

    /// How many entries are dealt with.
    pub closed spec fn cursor(&self) -> int {
        self.cursor as int
    }

    /// What was handed in for each entry that is dealt with: the content of
    /// a file, and nothing for any other entry.
    pub closed spec fn contents(&self) -> Seq<Seq<u8>> {
        self.contents@
    }

    /// Why the collection failed, once it has.
    pub closed spec fn error(&self) -> Option<DeployError> {
        self.error
    }

    /// What holds of a collector at every step.
    pub closed spec fn wf(&self) -> bool {
        &&& self.assets.wf()
        &&& self.cursor <= self.entries@.len()
        &&& self.contents@.len() == self.cursor
        &&& self.assets@ == gathered(
            self.base@,
            self.entries@,
            self.root@,
            self.contents@,
            self.cursor as int,
        )
        &&& forall|i: int|
            0 <= i < self.cursor ==> admissible(#[trigger] self.entries@[i], self.root@, self.limits)
        &&& match self.phase {
            CollectPhase::Locating | CollectPhase::Walking => self.entries@.len() == 0
                && self.error is None,
            CollectPhase::Reading => self.cursor < self.entries@.len()
                && self.entries@.len() < self.limits.max_assets && self.entries@[self.cursor as int] is File
                && admissible(self.entries@[self.cursor as int], self.root@, self.limits)
                && asset_name(self.entries@, self.root@, self.cursor as int) == Some(self.name@)
                && (self.entries@[self.cursor as int] matches WalkEntry::File { path, .. }
                && path@ == self.path@)
                && self.error is None,
            CollectPhase::Done => self.cursor == self.entries@.len() && self.error is None,
            CollectPhase::Failed => self.error is Some,
        }
    }

    /// What a valid collector owes its reader: the assets are the base with
    /// the files dealt with so far gathered over it, and none of those
    /// entries was refused.
    pub proof fn lemma_state(&self)
        requires
            self.wf(),
        ensures
            0 <= self.cursor() <= self.entries().len(),
            self.contents().len() == self.cursor(),
            self.assets() == gathered(
                self.base(),
                self.entries(),
                self.root(),
                self.contents(),
                self.cursor(),
            ),
            forall|i: int|
                0 <= i < self.cursor() ==> admissible(
                    #[trigger] self.entries()[i],
                    self.root(),
                    self.limits(),
                ),
            self.phase() is Done ==> self.cursor() == self.entries().len(),
            self.phase() is Failed <==> self.error() is Some,
            self.phase() is Reading ==> self.cursor() < self.entries().len()
                && self.entries().len() < self.limits().max_assets && admissible(
                self.entries()[self.cursor()],
                self.root(),
                self.limits(),
            ) && self.entries()[self.cursor()] is File,
            (self.phase() is Locating || self.phase() is Walking) ==> self.entries().len() == 0
                && self.assets() == self.base(),
    {
    }

    /// A collector for `root` that starts from the assets in `base`.
    pub fn new(root: String, limits: Limits, base: AssetSet) -> (collector: AssetCollector)
        requires
            base.wf(),
        ensures
            collector.wf(),
            collector.phase() is Locating,
            collector.root() == root@,
            collector.limits() == limits,
            collector.base() == base@,
            collector.assets() == base@,
            collector.entries().len() == 0,
    {
        AssetCollector {
            phase: CollectPhase::Locating,
            root,
            limits,
            base: Ghost(base@),
            assets: base,
            entries: Vec::new(),
            cursor: 0,
            name: String::new(),
            path: String::new(),
            error: None,
            contents: Ghost(Seq::empty()),
        }
    }

    /// The phase, for the caller that drives the collector.
    pub fn current_phase(&self) -> (phase: CollectPhase)
        ensures
            phase == self.phase(),
    {
        self.phase
    }
    /// Moves on from the cursor: passes over what is no file and stops at
    /// the first entry that is one, or that cannot be read.
    fn settle(self) -> (post: AssetCollector)
        requires
            self.assets.wf(),
            self.cursor <= self.entries@.len(),
            self.entries@.len() < self.limits.max_assets,
            self.contents@.len() == self.cursor,
            self.assets@ == gathered(
                self.base@,
                self.entries@,
                self.root@,
                self.contents@,
                self.cursor as int,
            ),
            forall|i: int|
                0 <= i < self.cursor ==> admissible(
                    #[trigger] self.entries@[i],
                    self.root@,
                    self.limits,
                ),
            self.error is None,
        ensures
            post.wf(),
            settled(self, self.entries@, self.assets@, self.contents@, self.cursor as int, post),
    {
        let mut current = self;
        let ghost from = self.cursor as int;
        while current.cursor < current.entries.len()
            invariant
                current.assets == self.assets,
                current.entries == self.entries,
                current.root == self.root,
                current.limits == self.limits,
                current.base == self.base,
                current.error is None,
                current.assets.wf(),
                from == self.cursor,
                self.contents@.len() == from,
                from <= current.cursor <= current.entries@.len(),
                current.entries@.len() < current.limits.max_assets,
                current.contents@ == self.contents@ + Seq::new(
                    (current.cursor - from) as nat,
                    |i: int| Seq::<u8>::empty(),
                ),
                current.assets@ == gathered(
                    current.base@,
                    current.entries@,
                    current.root@,
                    current.contents@,
                    current.cursor as int,
                ),
                forall|i: int|
                    0 <= i < current.cursor ==> admissible(
                        #[trigger] current.entries@[i],
                        current.root@,
                        current.limits,
                    ),
                forall|i: int| from <= i < current.cursor ==> current.entries@[i] is Other,
                next_stop(self.entries@, from) == next_stop(self.entries@, current.cursor as int),
            decreases current.entries@.len() - current.cursor,
        {
            let at = current.cursor;
            match &current.entries[at] {
                WalkEntry::Other { .. } => {
                    let ghost longer = current.contents@.push(Seq::<u8>::empty());
                    proof {
                        lemma_gathered_prefix(
                            current.base@,
                            current.entries@,
                            current.root@,
                            current.contents@,
                            longer,
                            at as int,
                        );
                        assert(longer =~= self.contents@ + Seq::new(
                            (at + 1 - from) as nat,
                            |i: int| Seq::<u8>::empty(),
                        ));
                    }
                    current.contents = Ghost(longer);
                    current.cursor = at + 1;
                },
                WalkEntry::Unreadable { reason } => {
                    current.error = Some(DeployError::Io(reason.clone()));
                    current.phase = CollectPhase::Failed;
                    return current;
                },
                WalkEntry::File { path, size } => {
                    if *size >= current.limits.max_asset_size {
                        current.error = Some(
                            DeployError::AssetTooLarge {
                                path: path.clone(),
                                max_size: current.limits.max_asset_size,
                            },
                        );
                        current.phase = CollectPhase::Failed;
                        return current;
                    }
                    match relative_path(path.as_str(), current.root.as_str()) {
                        Some(name) => {
                            current.name = name;
                            current.path = path.clone();
                            current.phase = CollectPhase::Reading;
                        },
                        None => {
                            current.error = Some(DeployError::InvalidPath(path.clone()));
                            current.phase = CollectPhase::Failed;
                        },
                    }
                    return current;
                },
            }
        }
        current.phase = CollectPhase::Done;
        current
    }

    /// What the collector becomes when it is told `event`.
    pub fn step(self, event: CollectEvent) -> (post: AssetCollector)
        requires
            self.wf(),
        ensures
            post.wf(),
            collect_step(self, event, post),
    {
        let mut current = self;
        match (current.phase, event) {
            (CollectPhase::Locating, CollectEvent::Located(found)) => {
                if found {
                    current.phase = CollectPhase::Walking;
                } else {
                    current.phase = CollectPhase::Done;
                }
                current
            },
            (CollectPhase::Walking, CollectEvent::Walked(entries)) => {
                if entries.len() >= current.limits.max_assets {
                    current.error = Some(
                        DeployError::TooManyAssets { limit: current.limits.max_assets },
                    );
                    current.phase = CollectPhase::Failed;
                    current
                } else {
                    current.entries = entries;
                    current.settle()
                }
            },
            (CollectPhase::Reading, CollectEvent::AssetRead(bytes)) => {
                let name = current.name.clone();
                let ghost longer = current.contents@.push(bytes@);
                proof {
                    lemma_gathered_prefix(
                        current.base@,
                        current.entries@,
                        current.root@,
                        current.contents@,
                        longer,
                        current.cursor as int,
                    );
                }
                current.contents = Ghost(longer);
                current.assets.insert(name, bytes);
                current.cursor = current.cursor + 1;
                current.settle()
            },
            (CollectPhase::Locating, CollectEvent::Failed(error))
            | (CollectPhase::Walking, CollectEvent::Failed(error))
            | (CollectPhase::Reading, CollectEvent::Failed(error)) => {
                current.error = Some(error);
                current.phase = CollectPhase::Failed;
                current
            },
            _ => current,
        }
    }

    /// What the collector asks for in the state it is in.
    pub fn action(&self) -> (action: CollectAction)
        requires
            self.wf(),
        ensures
            collect_action(*self, action),
    {
        match self.phase {
            CollectPhase::Locating => CollectAction::Locate { dir: self.root.clone() },
            CollectPhase::Walking => CollectAction::Walk { dir: self.root.clone() },
            CollectPhase::Reading => CollectAction::Read { path: self.path.clone() },
            CollectPhase::Done => CollectAction::Finish,
            CollectPhase::Failed => CollectAction::Abort,
        }
    }

    /// The assets of a completed collection, the error of a failed one, and
    /// nothing while the collection is under way.
    pub fn outcome(self) -> (outcome: Option<Result<AssetSet, DeployError>>)
        requires
            self.wf(),
        ensures
            match outcome {
                Some(Ok(assets)) => self.phase() is Done && assets@ == self.assets() && assets.wf(),
                Some(Err(error)) => self.phase() is Failed && self.error() == Some(error),
                None => !(self.phase() is Done) && !(self.phase() is Failed),
            },
    {
        match self.phase {
            CollectPhase::Done => Some(Ok(self.assets)),
            CollectPhase::Failed => match self.error {
                Some(error) => Some(Err(error)),
                None => None,
            },
            _ => None,
        }
    }
}

/// A root that does not exist, or is no directory, is collected without
/// any error: the collection is complete at once and holds what it started
/// from, which is nothing for a collector that started empty.
pub proof fn lemma_missing_root(pre: AssetCollector, post: AssetCollector)
    requires
        pre.wf(),
        pre.phase() is Locating,
        collect_step(pre, CollectEvent::Located(false), post),
    ensures
        post.phase() is Done,
        post.assets() == pre.base(),
        pre.base() == Map::<Seq<char>, Seq<u8>>::empty() ==> post.assets() == Map::<
            Seq<char>,
            Seq<u8>,
        >::empty(),
{
    pre.lemma_state();
}

/// A walk that came upon as many entries as the limit allows, or more, is
/// refused with `TooManyAssets`, and the collector then asks for no file:
/// all that is left is to stop.
pub proof fn lemma_too_many_entries(
    pre: AssetCollector,
    entries: Vec<WalkEntry>,
    post: AssetCollector,
    action: CollectAction,
)
    requires
        pre.wf(),
        pre.phase() is Walking,
        entries@.len() >= pre.limits().max_assets,
        collect_step(pre, CollectEvent::Walked(entries), post),
        collect_action(post, action),
    ensures
        post.phase() is Failed,
        post.error() matches Some(DeployError::TooManyAssets { limit }) && limit
            == pre.limits().max_assets,
        action is Abort,
{
}

/// The content that is handed in for a file is stored under the file's
/// name relative to the root, byte for byte, and is on record as the content
/// of that entry; the collector then moves on to a later entry.
pub proof fn lemma_read_recorded(pre: AssetCollector, bytes: Vec<u8>, post: AssetCollector)
    requires
        pre.wf(),
        pre.phase() is Reading,
        collect_step(pre, CollectEvent::AssetRead(bytes), post),
    ensures
        asset_name(pre.entries(), pre.root(), pre.cursor()) is Some,
        post.assets().contains_key(asset_name(pre.entries(), pre.root(), pre.cursor()).unwrap()),
        post.assets()[asset_name(pre.entries(), pre.root(), pre.cursor()).unwrap()] == bytes@,
        post.entries() == pre.entries(),
        post.cursor() > pre.cursor(),
        post.contents().len() == post.cursor(),
        post.contents()[pre.cursor()] == bytes@,
        post.contents().take(pre.cursor()) == pre.contents(),
{
    pre.lemma_state();
    let from = pre.cursor() + 1;
    lemma_next_stop_bounds(pre.entries(), from);
    assert(post.contents().take(pre.cursor()) =~= pre.contents());
}

/// The next stop lies at or after the position it was sought from, and
/// within the entries; everything passed over is no file.
pub proof fn lemma_next_stop_bounds(entries: Seq<WalkEntry>, from: int)
    requires
        0 <= from <= entries.len(),
    ensures
        from <= next_stop(entries, from) <= entries.len(),
        forall|i: int| from <= i < next_stop(entries, from) ==> #[trigger] entries[i] is Other,
        next_stop(entries, from) < entries.len() ==> !(entries[next_stop(entries, from)] is Other),
    decreases entries.len() - from,
{
    if from < entries.len() && entries[from] is Other {
        lemma_next_stop_bounds(entries, from + 1);
    }
}

/// Where every entry is admissible and there are fewer of them than the
/// limit, a collection that is not told of a failure never fails: the walk
/// and every file handed in lead to the next file or to the end.
pub proof fn lemma_admissible_goes_on(pre: AssetCollector, event: CollectEvent, post: AssetCollector)
    requires
        pre.wf(),
        !(pre.phase() is Failed),
        !(event is Failed),
        collect_step(pre, event, post),
        event matches CollectEvent::Walked(entries) ==> entries@.len() < pre.limits().max_assets
            && forall|i: int|
            0 <= i < entries@.len() ==> admissible(#[trigger] entries@[i], pre.root(), pre.limits()),
        pre.phase() is Reading ==> forall|i: int|
            0 <= i < pre.entries().len() ==> admissible(
                #[trigger] pre.entries()[i],
                pre.root(),
                pre.limits(),
            ),
    ensures
        !(post.phase() is Failed),
        post.phase() is Done || post.phase() is Reading || post.phase() is Walking
            || post.phase() is Locating,
{
    pre.lemma_state();
    match (pre.phase(), event) {
        (CollectPhase::Walking, CollectEvent::Walked(entries)) => {
            lemma_next_stop_bounds(entries@, 0);
        },
        (CollectPhase::Reading, CollectEvent::AssetRead(bytes)) => {
            lemma_next_stop_bounds(pre.entries(), pre.cursor() + 1);
        },
        _ => {},
    }
}

/// A completed collection holds one asset for each file of the root, under
/// the file's name relative to the root and with the content that was handed
/// in for that file, and nothing else beyond what it started from. (Should
/// two files have the same name, the later one is the one that is kept.)
pub proof fn lemma_collected(collector: AssetCollector)
    requires
        collector.wf(),
        collector.phase() is Done,
    ensures
        collector.contents().len() == collector.entries().len(),
        forall|i: int|
            0 <= i < collector.entries().len() && #[trigger] collector.entries()[i] is File
                ==> asset_name(collector.entries(), collector.root(), i) is Some,
        forall|i: int|
            0 <= i < collector.entries().len() && collector.entries()[i] is File && (forall|j: int|
                i < j < collector.entries().len() ==> asset_name(
                    collector.entries(),
                    collector.root(),
                    j,
                ) != asset_name(collector.entries(), collector.root(), i))
                ==> collector.assets().contains_key(
                #[trigger] asset_name(collector.entries(), collector.root(), i).unwrap(),
            ) && collector.assets()[asset_name(collector.entries(), collector.root(), i).unwrap()]
                == collector.contents()[i],
        forall|name: Seq<char>|
            #[trigger] collector.assets().contains_key(name) <==> (collector.base().contains_key(
                name,
            ) || exists|i: int|
                0 <= i < collector.entries().len() && asset_name(
                    collector.entries(),
                    collector.root(),
                    i,
                ) == Some(name)),
{
    collector.lemma_state();
    let n = collector.entries().len() as int;
    lemma_gathered(
        collector.base(),
        collector.entries(),
        collector.root(),
        collector.contents(),
        n,
    );
    assert forall|i: int|
        0 <= i < collector.entries().len() && #[trigger] collector.entries()[i] is File implies asset_name(
        collector.entries(),
        collector.root(),
        i,
    ) is Some by {
        assert(admissible(collector.entries()[i], collector.root(), collector.limits()));
    }
}

/// How many files there are among the first `n` entries.
pub open spec fn files_before(entries: Seq<WalkEntry>, n: int) -> int
    decreases n,
{
    if n <= 0 {
        0
    } else if entries[n - 1] is File {
        files_before(entries, n - 1) + 1
    } else {
        files_before(entries, n - 1)
    }
}

/// Whether `post` is what `pre` becomes when it is handed the contents in
/// `reads` one after another, each as the content of the file asked for.
pub open spec fn reads_lead(pre: AssetCollector, reads: Seq<Seq<u8>>, post: AssetCollector) -> bool
    decreases reads.len(),
{
    if reads.len() == 0 {
        post == pre
    } else {
        exists|bytes: Vec<u8>, mid: AssetCollector|
            bytes@ == reads[0] && mid.wf() && #[trigger] collect_step(
                pre,
                CollectEvent::AssetRead(bytes),
                mid,
            ) && reads_lead(mid, reads.drop_first(), post)
    }
}

/// The number of files does not change over entries that are no files.
proof fn lemma_files_before_others(entries: Seq<WalkEntry>, from: int, to: int)
    requires
        0 <= from <= to <= entries.len(),
        forall|i: int| from <= i < to ==> #[trigger] entries[i] is Other,
    ensures
        files_before(entries, to) == files_before(entries, from),
    decreases to - from,
{
    if from < to {
        lemma_files_before_others(entries, from, to - 1);
    }
}

/// The number of files among the first entries grows with their number.
proof fn lemma_files_before_grows(entries: Seq<WalkEntry>, from: int, to: int)
    requires
        0 <= from <= to <= entries.len(),
    ensures
        files_before(entries, from) <= files_before(entries, to),
    decreases to - from,
{
    if from < to {
        lemma_files_before_grows(entries, from, to - 1);
    }
}

/// A collector that waits for a file, or is done, and is handed as many
/// contents as there are files left, all of them admissible, ends done; each
/// file from the cursor on has the content on record that was handed in for
/// it, and what was on record before stays.
proof fn lemma_reads_lead_to_done(pre: AssetCollector, reads: Seq<Seq<u8>>, post: AssetCollector)
    requires
        pre.wf(),
        pre.phase() is Reading || pre.phase() is Done,
        forall|i: int|
            0 <= i < pre.entries().len() ==> admissible(
                #[trigger] pre.entries()[i],
                pre.root(),
                pre.limits(),
            ),
        reads.len() == files_before(pre.entries(), pre.entries().len() as int) - files_before(
            pre.entries(),
            pre.cursor(),
        ),
        reads_lead(pre, reads, post),
    ensures
        post.wf(),
        post.phase() is Done,
        same_task(pre, post),
        post.entries() == pre.entries(),
        post.contents().len() == pre.entries().len(),
        forall|i: int| 0 <= i < pre.cursor() ==> post.contents()[i] == pre.contents()[i],
        forall|i: int|
            pre.cursor() <= i < pre.entries().len() && #[trigger] pre.entries()[i] is File
                ==> post.contents()[i] == reads[files_before(pre.entries(), i) - files_before(
                pre.entries(),
                pre.cursor(),
            )],
    decreases reads.len(),
{
    pre.lemma_state();
    let entries = pre.entries();
    let total = entries.len() as int;
    let at = pre.cursor();
    if pre.phase() is Done {
        assert(reads.len() == 0);
    } else {
        lemma_files_before_grows(entries, at + 1, total);
        assert(files_before(entries, at + 1) == files_before(entries, at) + 1);
        assert(reads.len() > 0);
        let (bytes, mid) = choose|bytes: Vec<u8>, mid: AssetCollector|
            bytes@ == reads[0] && mid.wf() && #[trigger] collect_step(
                pre,
                CollectEvent::AssetRead(bytes),
                mid,
            ) && reads_lead(mid, reads.drop_first(), post);
        lemma_read_recorded(pre, bytes, mid);
        lemma_admissible_goes_on(pre, CollectEvent::AssetRead(bytes), mid);
        lemma_next_stop_bounds(entries, at + 1);
        mid.lemma_state();
        let stop = mid.cursor();
        assert(stop == next_stop(entries, at + 1));
        lemma_files_before_others(entries, at + 1, stop);
        assert(mid.phase() is Reading || mid.phase() is Done);
        lemma_reads_lead_to_done(mid, reads.drop_first(), post);
        assert forall|i: int| 0 <= i < at implies post.contents()[i] == pre.contents()[i] by {
            assert(mid.contents().take(at)[i] == mid.contents()[i]);
        }
        assert forall|i: int| at <= i < total && #[trigger] entries[i] is File implies post.contents()[i]
            == reads[files_before(entries, i) - files_before(entries, at)] by {
            if i == at {
                assert(post.contents()[at] == mid.contents()[at]);
            } else if i < stop {
                assert(entries[i] is Other);
            } else {
                lemma_files_before_grows(entries, stop, i);
                lemma_files_before_grows(entries, i + 1, total);
                assert(files_before(entries, i + 1) == files_before(entries, i) + 1);
                assert(files_before(entries, stop) == files_before(entries, at) + 1);
                assert(reads.drop_first()[files_before(entries, i) - files_before(entries, stop)]
                    == reads[files_before(entries, i) - files_before(entries, at)]);
            }
        }
    }
}

/// Collecting a directory whose walk came upon fewer entries than the limit
/// allows, every file among them below the size limit and with a name
/// relative to the root: handed the walk and then the content of each file
/// in the walk's order, the collector ends done. Its assets are those it
/// started from and one for each file, under the file's name relative to the
/// root and with the content handed in for that very file. (Should two files
/// have the same name, the later one is the one that is kept.)
pub proof fn lemma_collects_every_file(
    start: AssetCollector,
    entries: Vec<WalkEntry>,
    walked: AssetCollector,
    reads: Seq<Seq<u8>>,
    end: AssetCollector,
)
    requires
        start.wf(),
        start.phase() is Walking,
        entries@.len() < start.limits().max_assets,
        forall|i: int|
            0 <= i < entries@.len() ==> admissible(
                #[trigger] entries@[i],
                start.root(),
                start.limits(),
            ),
        walked.wf(),
        collect_step(start, CollectEvent::Walked(entries), walked),
        reads.len() == files_before(entries@, entries@.len() as int),
        reads_lead(walked, reads, end),
    ensures
        end.phase() is Done,
        forall|i: int|
            0 <= i < entries@.len() && #[trigger] entries@[i] is File ==> asset_name(
                entries@,
                start.root(),
                i,
            ) is Some,
        forall|i: int|
            0 <= i < entries@.len() && entries@[i] is File && (forall|j: int|
                i < j < entries@.len() ==> asset_name(entries@, start.root(), j) != asset_name(
                    entries@,
                    start.root(),
                    i,
                )) ==> end.assets().contains_key(
                #[trigger] asset_name(entries@, start.root(), i).unwrap(),
            ) && end.assets()[asset_name(entries@, start.root(), i).unwrap()]
                == reads[files_before(entries@, i)],
        forall|name: Seq<char>|
            #[trigger] end.assets().contains_key(name) <==> (start.base().contains_key(name)
                || exists|i: int|
                0 <= i < entries@.len() && asset_name(entries@, start.root(), i) == Some(name)),
{
    start.lemma_state();
    lemma_admissible_goes_on(start, CollectEvent::Walked(entries), walked);
    lemma_next_stop_bounds(entries@, 0);
    walked.lemma_state();
    let stop = walked.cursor();
    lemma_files_before_others(entries@, 0, stop);
    lemma_reads_lead_to_done(walked, reads, end);
    lemma_collected(end);
    assert forall|i: int|
        0 <= i < entries@.len() && entries@[i] is File && (forall|j: int|
            i < j < entries@.len() ==> asset_name(entries@, start.root(), j) != asset_name(
                entries@,
                start.root(),
                i,
            )) implies end.assets().contains_key(
        #[trigger] asset_name(entries@, start.root(), i).unwrap(),
    ) && end.assets()[asset_name(entries@, start.root(), i).unwrap()] == reads[files_before(
        entries@,
        i,
    )] by {
        if i < stop {
            assert(entries@[i] is Other);
        }
    }
}

/// Tells a collector the outcome of what it asked for, and returns the
/// collector with what it asks for next.
pub fn collect(collector: AssetCollector, event: CollectEvent) -> (next: (
    AssetCollector,
    CollectAction,
))
    requires
        collector.wf(),
    ensures
        next.0.wf(),
        collect_step(collector, event, next.0),
        collect_action(next.0, next.1),
{
    let post = collector.step(event);
    let action = post.action();
    (post, action)
}

} // verus!
