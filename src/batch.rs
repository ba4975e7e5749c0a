//! Placement of a list of files on the timeline.
//!
//! The host's timeline is only reachable through queries that the caller
//! performs, so a batch is a state machine: [`FileBatch::request`] names the
//! next query or command, the caller performs it, and
//! [`FileBatch::advance`] takes its answer.
use vstd::prelude::*;

verus! {

/// Why one file of a batch was not placed.
#[derive(Clone, Copy, Debug, PartialEq, Eq, Structural)]
pub enum FailureReason {
    /// The host does not accept the file's extension.
    UnsupportedFormat,
    /// The host could not say whether it accepts the file's extension.
    FormatQueryFailed,
    /// A search for a free layer failed, or ran past the last layer.
    PlacementFailed,
    /// The host did not create the object.
    CreationFailed,
}

impl FailureReason {
    /// The message key under which the reason is shown to the user.
    pub fn source_text(&self) -> (r: &'static str)
        ensures
            r@ == reason_text(*self),
    {
        match self {
            FailureReason::UnsupportedFormat => "対応していないファイル形式です",
            FailureReason::FormatQueryFailed => "ファイル形式の確認に失敗しました",
            FailureReason::PlacementFailed => "配置先の検索に失敗しました",
            FailureReason::CreationFailed => "オブジェクトの作成に失敗しました",
        }
    }
}

pub open spec fn reason_text(r: FailureReason) -> Seq<char> {
    match r {
        FailureReason::UnsupportedFormat => "対応していないファイル形式です"@,
        FailureReason::FormatQueryFailed => "ファイル形式の確認に失敗しました"@,
        FailureReason::PlacementFailed => "配置先の検索に失敗しました"@,
        FailureReason::CreationFailed => "オブジェクトの作成に失敗しました"@,
    }
}

/// One file that was not placed: its position in the list, and why.
#[derive(Clone, Copy, Debug, PartialEq, Eq, Structural)]
pub struct FileFailure {
    pub index: usize,
    pub reason: FailureReason,
}

/// What the batch is waiting for on its current file.
#[derive(Clone, Copy, Debug, PartialEq, Eq, Structural)]
pub enum Stage {
    /// Looking for a layer that is free at the batch's frame.
    Seek,
    /// A free layer was found; the file's extension is to be checked.
    CheckFormat,
    /// The file is to be placed at the current layer.
    Create,
    /// Every file has been handled.
    Done,
}

/// The next thing the caller has to do for the batch.
#[derive(Clone, Copy, Debug, PartialEq, Eq, Structural)]
pub enum Request {
    /// Ask whether `frame` is free on `layer`, and answer with [`Reply::Slot`].
    ProbeSlot { layer: usize, frame: usize },
    /// Ask whether the host accepts the extension of file `index`, and answer
    /// with [`Reply::Format`].
    CheckFormat { index: usize },
    /// Create an object from file `index` at `(layer, frame)`, and answer with
    /// [`Reply::Created`].
    Create { index: usize, layer: usize, frame: usize },
    /// Nothing is left to do.
    Finished,
}

/// The caller's answer to a [`Request`]. `None` stands for a query that failed.
#[derive(Clone, Copy, Debug, PartialEq, Eq, Structural)]
pub enum Reply {
    Slot(Option<bool>),
    Format(Option<bool>),
    Created(bool),
}

/// Whether `frame` is free on a layer, given where the first object of that
/// layer that reaches `frame` or lies after it starts (`None` where there is
/// no such object): free unless that object has started by `frame`.
pub fn can_place_at(next_start: Option<usize>, frame: usize) -> (r: bool)
    ensures
        r == (next_start is None || next_start.unwrap() > frame),
{
    match next_start {
        Some(start) => start > frame,
        None => true,
    }
}

/// Position of a batch: which file, which layer, and what it waits for.
#[derive(Clone, Copy, Debug, PartialEq, Eq, Structural)]
pub struct Cursor {
    /// Number of files in the batch.
    pub count: usize,
    /// The frame every file is placed at.
    pub frame: usize,
    /// The layer the current file is tried at.
    pub layer: usize,
    /// The current file.
    pub index: usize,
    pub stage: Stage,
    /// Files placed so far.
    pub created: usize,
    /// Files given up so far.
    pub failed: usize,
}

pub open spec fn cursor_wf(c: Cursor) -> bool {
    &&& c.index <= c.count
    &&& (c.stage == Stage::Done <==> c.index == c.count)
    &&& c.created + c.failed == c.index
}

pub open spec fn request_of(c: Cursor) -> Request {
    match c.stage {
        Stage::Seek => Request::ProbeSlot { layer: c.layer, frame: c.frame },
        Stage::CheckFormat => Request::CheckFormat { index: c.index },
        Stage::Create => Request::Create { index: c.index, layer: c.layer, frame: c.frame },
        Stage::Done => Request::Finished,
    }
}

/// The cursor after the current file was given up: the layer stays where the
/// search left it.
pub open spec fn skip_file(c: Cursor) -> Cursor {
    Cursor {
        index: (c.index + 1) as usize,
        stage: if c.index + 1 == c.count { Stage::Done } else { Stage::Seek },
        failed: (c.failed + 1) as usize,
        ..c
    }
}

/// The layer after `layer`, or `layer` itself where none follows.
pub open spec fn layer_after(layer: usize) -> usize {
    if layer < usize::MAX { (layer + 1) as usize } else { layer }
}

/// One step of a batch: the new cursor, and the reason if the current file
/// was given up. A reply that does not answer the current request changes
/// nothing.
pub open spec fn step(c: Cursor, reply: Reply) -> (Cursor, Option<FailureReason>) {
    match (c.stage, reply) {
        (Stage::Seek, Reply::Slot(Some(true))) => (Cursor { stage: Stage::CheckFormat, ..c }, None),
        (Stage::Seek, Reply::Slot(Some(false))) => if c.layer < usize::MAX {
            (Cursor { layer: (c.layer + 1) as usize, ..c }, None)
        } else {
            (skip_file(c), Some(FailureReason::PlacementFailed))
        },
        (Stage::Seek, Reply::Slot(None)) => (skip_file(c), Some(FailureReason::PlacementFailed)),
        (Stage::CheckFormat, Reply::Format(Some(true))) => (Cursor { stage: Stage::Create, ..c }, None),
        (Stage::CheckFormat, Reply::Format(Some(false))) => (
            skip_file(c),
            Some(FailureReason::UnsupportedFormat),
        ),
        (Stage::CheckFormat, Reply::Format(None)) => (
            skip_file(c),
            Some(FailureReason::FormatQueryFailed),
        ),
        (Stage::Create, Reply::Created(true)) => (
            Cursor {
                index: (c.index + 1) as usize,
                stage: if c.index + 1 == c.count { Stage::Done } else { Stage::Seek },
                layer: layer_after(c.layer),
                created: (c.created + 1) as usize,
                ..c
            },
            None,
        ),
        (Stage::Create, Reply::Created(false)) => (skip_file(c), Some(FailureReason::CreationFailed)),
        _ => (c, None),
    }
}

/// The cursor after a sequence of replies.
pub open spec fn run(c: Cursor, replies: Seq<Reply>) -> Cursor
    decreases replies.len(),
{
    if replies.len() == 0 {
        c
    } else {
        run(step(c, replies[0]).0, replies.drop_first())
    }
}

/// The objects a batch creates along a sequence of replies: for each, the
/// file's index, the layer and the frame.
pub open spec fn placed(c: Cursor, replies: Seq<Reply>) -> Seq<(usize, usize, usize)>
    decreases replies.len(),
{
    if replies.len() == 0 {
        Seq::empty()
    } else {
        let here = if c.stage == Stage::Create && replies[0] == Reply::Created(true) {
            seq![(c.index, c.layer, c.frame)]
        } else {
            Seq::empty()
        };
        here + placed(step(c, replies[0]).0, replies.drop_first())
    }
}

/// Answers to `n` successive probes starting at layer `from`, as `free` says.
pub open spec fn probe_replies(free: spec_fn(int) -> bool, from: int, n: nat) -> Seq<Reply> {
    Seq::new(n, |i: int| Reply::Slot(Some(free(from + i))))
}

/// The answers for `n` files on a timeline where every slot is free, every
/// file is accepted and every creation succeeds.
pub open spec fn smooth_replies(n: nat) -> Seq<Reply>
    decreases n,
{
    if n == 0 {
        Seq::empty()
    } else {
        seq![Reply::Slot(Some(true)), Reply::Format(Some(true)), Reply::Created(true)]
            + smooth_replies((n - 1) as nat)
    }
}

/// A search for a free layer skips every layer that is occupied at the
/// batch's frame and stops at the first free one at or above where it began;
/// the file it was searching for is then checked at that layer.
pub proof fn lemma_seek_stops_at_first_free(c: Cursor, free: spec_fn(int) -> bool, k: nat)
    requires
        cursor_wf(c),
        c.stage == Stage::Seek,
        c.layer + k <= usize::MAX,
        forall|i: int| 0 <= i < k ==> !#[trigger] free(c.layer + i),
        free(c.layer + k),
    ensures
        run(c, probe_replies(free, c.layer as int, k + 1)) == (Cursor {
            stage: Stage::CheckFormat,
            layer: (c.layer + k) as usize,
            ..c
        }),
        placed(c, probe_replies(free, c.layer as int, k + 1)).len() == 0,
    decreases k,
{
    let r = probe_replies(free, c.layer as int, k + 1);
    if k == 0 {
        assert(r[0] == Reply::Slot(Some(true)));
        assert(r.drop_first().len() == 0);
        assert(run(c, r) == run(step(c, r[0]).0, r.drop_first()));
        assert(placed(c, r) =~= placed(step(c, r[0]).0, r.drop_first()));
    } else {
        assert(!free(c.layer + 0));
        assert(r[0] == Reply::Slot(Some(false)));
        let c1 = Cursor { layer: (c.layer + 1) as usize, ..c };
        assert forall|i: int| 0 <= i < k - 1 implies !#[trigger] free(c1.layer + i) by {
            assert(!free(c.layer + (i + 1)));
            assert(c1.layer + i == c.layer + (i + 1));
        }
        assert(c1.layer + (k - 1) == c.layer + k);
        lemma_seek_stops_at_first_free(c1, free, (k - 1) as nat);
        assert(r.drop_first() =~= probe_replies(free, c1.layer as int, k));
        assert(run(c, r) == run(c1, r.drop_first()));
        assert(placed(c, r) =~= placed(c1, r.drop_first()));
    }
}

/// The cursor of a batch of `n` files from `(layer, frame)` after the first
/// `i` files were placed one layer apart.
pub open spec fn smooth_cursor(n: usize, layer: usize, frame: usize, i: nat) -> Cursor {
    Cursor {
        count: n,
        frame,
        layer: (layer + i) as usize,
        index: i as usize,
        stage: if i == n { Stage::Done } else { Stage::Seek },
        created: i as usize,
        failed: 0,
    }
}

proof fn lemma_smooth_from(n: usize, layer: usize, frame: usize, i: nat)
    requires
        layer + n <= usize::MAX,
        i <= n,
    ensures
        run(smooth_cursor(n, layer, frame, i), smooth_replies((n - i) as nat))
            == smooth_cursor(n, layer, frame, n as nat),
        placed(smooth_cursor(n, layer, frame, i), smooth_replies((n - i) as nat))
            =~= Seq::new(
            (n - i) as nat,
            |j: int| ((i + j) as usize, (layer + i + j) as usize, frame),
        ),
    decreases n - i,
{
    if i < n {
        let c0 = smooth_cursor(n, layer, frame, i);
        let rest = smooth_replies((n - i - 1) as nat);
        let r = smooth_replies((n - i) as nat);
        let c1 = Cursor { stage: Stage::CheckFormat, ..c0 };
        let c2 = Cursor { stage: Stage::Create, ..c0 };
        assert(r[0] == Reply::Slot(Some(true)));
        assert(step(c0, r[0]).0 == c1);
        let r1 = r.drop_first();
        assert(r1[0] == Reply::Format(Some(true)));
        assert(step(c1, r1[0]).0 == c2);
        let r2 = r1.drop_first();
        assert(r2[0] == Reply::Created(true));
        assert(step(c2, r2[0]).0 == smooth_cursor(n, layer, frame, i + 1));
        assert(r2.drop_first() =~= rest);
        lemma_smooth_from(n, layer, frame, i + 1);
        assert(run(c2, r2) == run(smooth_cursor(n, layer, frame, i + 1), rest));
        assert(run(c1, r1) == run(c2, r2));
        assert(run(c0, r) == run(c1, r1));
        assert(placed(c2, r2) =~= seq![(c0.index, c0.layer, frame)] + placed(
            smooth_cursor(n, layer, frame, i + 1),
            rest,
        ));
        assert(placed(c1, r1) =~= placed(c2, r2));
        assert(placed(c0, r) =~= placed(c1, r1));
    }
}

/// On a timeline with no objects, where every file is accepted, a batch of
/// `n` files starting at `(layer, frame)` creates file `i` at layer
/// `layer + i`, all at `frame`, and ends with every file placed.
pub proof fn lemma_empty_timeline_consecutive_layers(n: usize, layer: usize, frame: usize)
    requires
        layer + n <= usize::MAX,
    ensures
        placed(initial(n, layer, frame), smooth_replies(n as nat)) =~= Seq::new(
            n as nat,
            |i: int| (i as usize, (layer + i) as usize, frame),
        ),
        run(initial(n, layer, frame), smooth_replies(n as nat)).stage == Stage::Done,
        run(initial(n, layer, frame), smooth_replies(n as nat)).created == n,
        run(initial(n, layer, frame), smooth_replies(n as nat)).failed == 0,
{
    assert(initial(n, layer, frame) == smooth_cursor(n, layer, frame, 0));
    lemma_smooth_from(n, layer, frame, 0);
}

/// The cursor of a new batch.
pub open spec fn initial(count: usize, layer: usize, frame: usize) -> Cursor {
    Cursor {
        count,
        frame,
        layer,
        index: 0,
        stage: if count == 0 { Stage::Done } else { Stage::Seek },
        created: 0,
        failed: 0,
    }
}

/// Placement of `count` files, one after another, starting at a layer and
/// keeping one frame.
pub struct FileBatch {
    pub cursor: Cursor,
    pub failures: Vec<FileFailure>,
}

impl FileBatch {
    pub open spec fn wf(&self) -> bool {
        &&& cursor_wf(self.cursor)
        &&& self.failures@.len() == self.cursor.failed
        &&& forall|i: int|
            0 <= i < self.failures@.len() ==> #[trigger] self.failures@[i].index < self.cursor.index
    }

    /// A batch of `count` files whose first file is tried at `(layer, frame)`.
    pub fn new(count: usize, layer: usize, frame: usize) -> (r: FileBatch)
        ensures
            r.wf(),
            r.cursor == initial(count, layer, frame),
            r.failures@.len() == 0,
    {
        FileBatch {
            cursor: Cursor {
                count,
                frame,
                layer,
                index: 0,
                stage: if count == 0 { Stage::Done } else { Stage::Seek },
                created: 0,
                failed: 0,
            },
            failures: Vec::new(),
        }
    }

    /// What the caller has to do next.
    pub fn request(&self) -> (r: Request)
        ensures
            r == request_of(self.cursor),
    {
        let c = self.cursor;
        match c.stage {
            Stage::Seek => Request::ProbeSlot { layer: c.layer, frame: c.frame },
            Stage::CheckFormat => Request::CheckFormat { index: c.index },
            Stage::Create => Request::Create { index: c.index, layer: c.layer, frame: c.frame },
            Stage::Done => Request::Finished,
        }
    }

    fn give_up(&mut self, reason: FailureReason)
        requires
            old(self).wf(),
            old(self).cursor.stage != Stage::Done,
        ensures
            final(self).wf(),
            final(self).cursor == skip_file(old(self).cursor),
            final(self).failures@ == old(self).failures@.push(
                FileFailure { index: old(self).cursor.index, reason },
            ),
    {
        let index = self.cursor.index;
        self.failures.push(FileFailure { index, reason });
        self.cursor.index = index + 1;
        self.cursor.failed = self.cursor.failed + 1;
        self.cursor.stage = if index + 1 == self.cursor.count {
            Stage::Done
        } else {
            Stage::Seek
        };
    }

    /// Takes the caller's answer to the current request. A file that cannot be
    /// placed is recorded with its reason, and the batch goes on with the next.
    pub fn advance(&mut self, reply: Reply)
        requires
            old(self).wf(),
        ensures
            final(self).wf(),
            final(self).cursor == step(old(self).cursor, reply).0,
            final(self).failures@ == match step(old(self).cursor, reply).1 {
                Some(reason) => old(self).failures@.push(
                    FileFailure { index: old(self).cursor.index, reason },
                ),
                None => old(self).failures@,
            },
    {
        match (self.cursor.stage, reply) {
            (Stage::Seek, Reply::Slot(Some(true))) => {
                self.cursor.stage = Stage::CheckFormat;
            },
            (Stage::Seek, Reply::Slot(Some(false))) => {
                if self.cursor.layer < usize::MAX {
                    self.cursor.layer = self.cursor.layer + 1;
                } else {
                    self.give_up(FailureReason::PlacementFailed);
                }
            },
            (Stage::Seek, Reply::Slot(None)) => {
                self.give_up(FailureReason::PlacementFailed);
            },
            (Stage::CheckFormat, Reply::Format(Some(true))) => {
                self.cursor.stage = Stage::Create;
            },
            (Stage::CheckFormat, Reply::Format(Some(false))) => {
                self.give_up(FailureReason::UnsupportedFormat);
            },
            (Stage::CheckFormat, Reply::Format(None)) => {
                self.give_up(FailureReason::FormatQueryFailed);
            },
            (Stage::Create, Reply::Created(true)) => {
                let index = self.cursor.index;
                self.cursor.index = index + 1;
                self.cursor.created = self.cursor.created + 1;
                if self.cursor.layer < usize::MAX {
                    self.cursor.layer = self.cursor.layer + 1;
                }
                self.cursor.stage = if index + 1 == self.cursor.count {
                    Stage::Done
                } else {
                    Stage::Seek
                };
            },
            (Stage::Create, Reply::Created(false)) => {
                self.give_up(FailureReason::CreationFailed);
            },
            _ => {},
        }
    }

    /// The outcome of a finished batch: the number of files placed, or every
    /// file that was not, in list order.
    pub fn finish(self) -> (r: Result<usize, Vec<FileFailure>>)
        requires
            self.wf(),
        ensures
            self.failures@.len() == 0 ==> r == Ok::<usize, Vec<FileFailure>>(self.cursor.created),
            self.failures@.len() > 0 ==> (r matches Err(v) && v@ == self.failures@),
    {
        if self.failures.len() == 0 {
            Ok(self.cursor.created)
        } else {
            Err(self.failures)
        }
    }
}

} // verus!
