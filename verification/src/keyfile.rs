//! The temporary keyfile: what was written where, the order of the steps that
//! write it, and the order of the steps that wipe it afterwards (overwrite
//! with zeros, then delete), with the I/O of each step left to the caller.
use vstd::prelude::*;

verus! {

/// A temporary keyfile that has been written: its path and the number of
/// bytes it holds.
#[derive(Debug)]
pub struct TempKeyfile {
    path: String,
    size: usize,
}

impl TempKeyfile {
    /// The path, as a sequence of characters.
    pub closed spec fn path_view(&self) -> Seq<char> {
        self.path@
    }

    /// The number of bytes written to the file.
    pub closed spec fn size_view(&self) -> nat {
        self.size as nat
    }

    /// Describes the keyfile that holds `data` at `path`.
    pub fn new(path: &str, data: &[u8]) -> (k: Self)
        ensures
            k.path_view() == path@,
            k.size_view() == data@.len(),
    {
        TempKeyfile { path: String::from_str(path), size: data.len() }
    }

    /// Returns the path of the temporary file.
    pub fn path(&self) -> (p: &str)
        ensures
            p@ == self.path_view(),
    {
        self.path.as_str()
    }

    /// Returns the number of bytes written to the file.
    pub fn size(&self) -> (n: usize)
        ensures
            n == self.size_view(),
    {
        self.size
    }

    /// The bytes that overwrite the file before it is deleted: zeros over
    /// the whole file as it stands (`current_len`, where its length could be
    /// read) and over every byte that was written to it.
    pub fn overwrite_zeros(&self, current_len: Option<usize>) -> (z: Vec<u8>)
        ensures
            z@.len() == overwrite_len(self.size_view(), current_len),
            forall|i: int| 0 <= i < z@.len() ==> z@[i] == 0u8,
    {
        let n = match current_len {
            Some(m) => if m > self.size {
                m
            } else {
                self.size
            },
            None => self.size,
        };
        let mut z: Vec<u8> = Vec::new();
        let mut i: usize = 0;
        while i < n
            invariant
                i <= n,
                z@.len() == i,
                forall|j: int| 0 <= j < z@.len() ==> z@[j] == 0u8,
            decreases n - i,
        {
            z.push(0u8);
            i = i + 1;
        }
        z
    }
}

/// How many zero bytes overwrite a keyfile of which `written` bytes were
/// written and whose length is now `current` (where it could be read): enough
/// to cover both.
pub open spec fn overwrite_len(written: nat, current: Option<usize>) -> nat {
    match current {
        Some(m) => if m > written {
            m as nat
        } else {
            written
        },
        None => written,
    }
}

/// The steps that write the temporary keyfile, in order.
#[derive(Clone, Copy, PartialEq, Eq, Structural, Debug)]
pub enum WriteStep {
    /// Create the parent directories of the path.
    CreateParentDirs,
    /// Create (or truncate) the file.
    CreateFile,
    /// Restrict the file's permissions to its owner (mode 0600).
    RestrictPermissions,
    /// Write the keyfile's bytes.
    WriteData,
    /// Flush the file.
    Flush,
    /// Sync the file to the disk.
    Sync,
}

/// The step that follows `step` when it ended as `succeeded` says: the next
/// step in order after a success, none after a failure or after the last step.
pub open spec fn next_write_step(step: WriteStep, succeeded: bool) -> Option<WriteStep> {
    if !succeeded {
        None
    } else {
        match step {
            WriteStep::CreateParentDirs => Some(WriteStep::CreateFile),
            WriteStep::CreateFile => Some(WriteStep::RestrictPermissions),
            WriteStep::RestrictPermissions => Some(WriteStep::WriteData),
            WriteStep::WriteData => Some(WriteStep::Flush),
            WriteStep::Flush => Some(WriteStep::Sync),
            WriteStep::Sync => None,
        }
    }
}

/// Where the writing of a temporary keyfile stands.
#[derive(Clone, Copy, PartialEq, Eq, Structural, Debug)]
pub enum WriteProgress {
    /// This step is to be performed next.
    Pending(WriteStep),
    /// Every step succeeded.
    Written,
    /// This step failed; nothing more is done.
    Failed(WriteStep),
}

/// The progress after `step` ended as `succeeded` says.
pub open spec fn write_progress_after(step: WriteStep, succeeded: bool) -> WriteProgress {
    if !succeeded {
        WriteProgress::Failed(step)
    } else {
        match next_write_step(step, true) {
            Some(s) => WriteProgress::Pending(s),
            None => WriteProgress::Written,
        }
    }
}

/// Whether the progress calls for the wipe of the keyfile: a step failed
/// after the file was created, so that it may hold some of the data.
pub open spec fn write_needs_wipe(p: WriteProgress) -> bool {
    match p {
        WriteProgress::Failed(step) => step != WriteStep::CreateParentDirs && step
            != WriteStep::CreateFile,
        _ => false,
    }
}

/// The sequence of steps that writes a temporary keyfile.
pub struct KeyfileWrite {
    progress: WriteProgress,
}

impl View for KeyfileWrite {
    type V = WriteProgress;

    closed spec fn view(&self) -> WriteProgress {
        self.progress
    }
}

impl KeyfileWrite {
    /// Starts with the creation of the parent directories.
    pub fn begin() -> (w: Self)
        ensures
            w@ == WriteProgress::Pending(WriteStep::CreateParentDirs),
    {
        KeyfileWrite { progress: WriteProgress::Pending(WriteStep::CreateParentDirs) }
    }

    /// The step to perform next, if any.
    pub fn next_step(&self) -> (s: Option<WriteStep>)
        ensures
            s == match self@ {
                WriteProgress::Pending(step) => Some(step),
                _ => None,
            },
    {
        match self.progress {
            WriteProgress::Pending(step) => Some(step),
            _ => None,
        }
    }

    /// Where the writing stands.
    pub fn progress(&self) -> (p: WriteProgress)
        ensures
            p == self@,
    {
        self.progress
    }

    /// Whether the file must now be wiped (with `KeyfileWipe`): a step failed
    /// after the file was created.
    pub fn needs_wipe(&self) -> (b: bool)
        ensures
            b == write_needs_wipe(self@),
    {
        match self.progress {
            WriteProgress::Failed(step) => step != WriteStep::CreateParentDirs && step
                != WriteStep::CreateFile,
            _ => false,
        }
    }

    /// Records how the pending step ended.
    pub fn record(&mut self, succeeded: bool)
        requires
            old(self)@ is Pending,
        ensures
            final(self)@ == write_progress_after(old(self)@->Pending_0, succeeded),
    {
        if let WriteProgress::Pending(step) = self.progress {
            self.progress = if !succeeded {
                WriteProgress::Failed(step)
            } else {
                match step {
                    WriteStep::CreateParentDirs => WriteProgress::Pending(WriteStep::CreateFile),
                    WriteStep::CreateFile => WriteProgress::Pending(WriteStep::RestrictPermissions),
                    WriteStep::RestrictPermissions => WriteProgress::Pending(WriteStep::WriteData),
                    WriteStep::WriteData => WriteProgress::Pending(WriteStep::Flush),
                    WriteStep::Flush => WriteProgress::Pending(WriteStep::Sync),
                    WriteStep::Sync => WriteProgress::Written,
                }
            };
        }
    }
}

/// The steps that wipe the temporary keyfile, in order.
#[derive(Clone, Copy, PartialEq, Eq, Structural, Debug)]
pub enum WipeStep {
    /// Check whether the file exists (success means that it does).
    CheckExists,
    /// Open the file for writing.
    Open,
    /// Overwrite the file's bytes with zeros.
    Overwrite,
    /// Flush the file.
    Flush,
    /// Sync the file to the disk.
    Sync,
    /// Delete the file.
    Remove,
}

/// The step that follows `step` when it ended as `succeeded` says. A file
/// that does not exist is left alone; one that cannot be opened is still
/// deleted; failures to overwrite, flush or sync are ignored, so that the wipe
/// goes as far as it can.
pub open spec fn next_wipe_step(step: WipeStep, succeeded: bool) -> Option<WipeStep> {
    match step {
        WipeStep::CheckExists => if succeeded {
            Some(WipeStep::Open)
        } else {
            None
        },
        WipeStep::Open => if succeeded {
            Some(WipeStep::Overwrite)
        } else {
            Some(WipeStep::Remove)
        },
        WipeStep::Overwrite => Some(WipeStep::Flush),
        WipeStep::Flush => Some(WipeStep::Sync),
        WipeStep::Sync => Some(WipeStep::Remove),
        WipeStep::Remove => None,
    }
}

/// The sequence of steps that wipes a temporary keyfile.
pub struct KeyfileWipe {
    pending: Option<WipeStep>,
}

impl View for KeyfileWipe {
    type V = Option<WipeStep>;

    closed spec fn view(&self) -> Option<WipeStep> {
        self.pending
    }
}

impl KeyfileWipe {
    /// Starts with the check that the file exists.
    pub fn begin() -> (w: Self)
        ensures
            w@ == Some(WipeStep::CheckExists),
    {
        KeyfileWipe { pending: Some(WipeStep::CheckExists) }
    }

    /// The step to perform next, if any.
    pub fn next_step(&self) -> (s: Option<WipeStep>)
        ensures
            s == self@,
    {
        self.pending
    }

    /// Records how the pending step ended.
    pub fn record(&mut self, succeeded: bool)
        requires
            old(self)@ is Some,
        ensures
            final(self)@ == next_wipe_step(old(self)@->0, succeeded),
    {
        if let Some(step) = self.pending {
            self.pending = match step {
                WipeStep::CheckExists => if succeeded {
                    Some(WipeStep::Open)
                } else {
                    None
                },
                WipeStep::Open => if succeeded {
                    Some(WipeStep::Overwrite)
                } else {
                    Some(WipeStep::Remove)
                },
                WipeStep::Overwrite => Some(WipeStep::Flush),
                WipeStep::Flush => Some(WipeStep::Sync),
                WipeStep::Sync => Some(WipeStep::Remove),
                WipeStep::Remove => None,
            };
        }
    }
}


/// The steps performed from `step` on, when the performed steps end as
/// `outcomes` says, one outcome per step (success is `true`).
pub open spec fn write_trace(step: WriteStep, outcomes: Seq<bool>) -> Seq<WriteStep>
    decreases outcomes.len(),
{
    if outcomes.len() == 0 {
        Seq::empty()
    } else {
        seq![step] + match next_write_step(step, outcomes[0]) {
            Some(next) => write_trace(next, outcomes.drop_first()),
            None => Seq::empty(),
        }
    }
}

/// All the steps that write a keyfile, in order.
pub open spec fn write_order() -> Seq<WriteStep> {
    seq![
        WriteStep::CreateParentDirs,
        WriteStep::CreateFile,
        WriteStep::RestrictPermissions,
        WriteStep::WriteData,
        WriteStep::Flush,
        WriteStep::Sync,
    ]
}

/// Writing a keyfile performs the steps in order and stops at the first one
/// that fails (after which the file is wiped, see `law_failed_write_is_wiped`);
/// so the keyfile's bytes are written only after the file's permissions were
/// restricted to its owner, and every step before succeeded.
pub proof fn law_write_stops_at_first_failure(outcomes: Seq<bool>)
    requires
        outcomes.len() >= 6,
    ensures
        forall|k: int|
            0 <= k < 6 && !outcomes[k] && (forall|j: int| 0 <= j < k ==> outcomes[j]) ==> write_trace(
                WriteStep::CreateParentDirs,
                outcomes,
            ) == write_order().take(k + 1),
        (forall|j: int| 0 <= j < 6 ==> outcomes[j]) ==> write_trace(
            WriteStep::CreateParentDirs,
            outcomes,
        ) == write_order(),
        write_trace(WriteStep::CreateParentDirs, outcomes).contains(WriteStep::WriteData) ==> outcomes[0]
            && outcomes[1] && outcomes[2],
{
    let o = outcomes;
    let t0 = write_trace(WriteStep::CreateParentDirs, o);
    let t1 = write_trace(WriteStep::CreateFile, o.drop_first());
    let t2 = write_trace(WriteStep::RestrictPermissions, o.drop_first().drop_first());
    let o3 = o.drop_first().drop_first().drop_first();
    let t3 = write_trace(WriteStep::WriteData, o3);
    let t4 = write_trace(WriteStep::Flush, o3.drop_first());
    let t5 = write_trace(WriteStep::Sync, o3.drop_first().drop_first());
    assert(t5 == seq![WriteStep::Sync] + Seq::<WriteStep>::empty());
    assert(t0 == seq![WriteStep::CreateParentDirs] + if o[0] { t1 } else { Seq::empty() });
    assert(t1 == seq![WriteStep::CreateFile] + if o[1] { t2 } else { Seq::empty() });
    assert(t2 == seq![WriteStep::RestrictPermissions] + if o[2] { t3 } else { Seq::empty() });
    assert(t3 == seq![WriteStep::WriteData] + if o[3] { t4 } else { Seq::empty() });
    assert(t4 == seq![WriteStep::Flush] + if o[4] { t5 } else { Seq::empty() });
    assert forall|k: int|
        0 <= k < 6 && !o[k] && (forall|j: int| 0 <= j < k ==> o[j]) implies t0 == write_order().take(
        k + 1,
    ) by {
        if k >= 1 {
            assert(o[0]);
        }
        if k >= 2 {
            assert(o[1]);
        }
        if k >= 3 {
            assert(o[2]);
        }
        if k >= 4 {
            assert(o[3]);
        }
        if k >= 5 {
            assert(o[4]);
        }
        assert(t0 =~= write_order().take(k + 1));
    }
    if forall|j: int| 0 <= j < 6 ==> o[j] {
        assert(o[0] && o[1] && o[2] && o[3] && o[4]);
        assert(t0 =~= write_order());
    }
    if t0.contains(WriteStep::WriteData) {
        let i = choose|i: int| 0 <= i < t0.len() && t0[i] == WriteStep::WriteData;
        if !o[0] {
            assert(t0 =~= seq![WriteStep::CreateParentDirs]);
        } else if !o[1] {
            assert(t0 =~= seq![WriteStep::CreateParentDirs, WriteStep::CreateFile]);
        } else if !o[2] {
            assert(t0 =~= seq![
                WriteStep::CreateParentDirs,
                WriteStep::CreateFile,
                WriteStep::RestrictPermissions,
            ]);
        }
    }
}

/// A write that fails once the file exists ends in the wipe of the file, so
/// that no part of the keyfile is left on disk; a write that fails before
/// the file was created has nothing to wipe.
pub proof fn law_failed_write_is_wiped(step: WriteStep)
    ensures
        write_needs_wipe(write_progress_after(step, false)) <==> step != WriteStep::CreateParentDirs
            && step != WriteStep::CreateFile,
        !write_needs_wipe(write_progress_after(step, true)),
{
}

/// The steps performed from `step` on, when the performed steps end as
/// `outcomes` says, one outcome per step (success is `true`).
pub open spec fn wipe_trace(step: WipeStep, outcomes: Seq<bool>) -> Seq<WipeStep>
    decreases outcomes.len(),
{
    if outcomes.len() == 0 {
        Seq::empty()
    } else {
        seq![step] + match next_wipe_step(step, outcomes[0]) {
            Some(next) => wipe_trace(next, outcomes.drop_first()),
            None => Seq::empty(),
        }
    }
}

/// Wiping a keyfile does nothing more to a file that does not exist; a file
/// that exists is always deleted in the end, whether or not it could be
/// opened, overwritten, flushed or synced; and it is overwritten exactly when
/// it could be opened.
pub proof fn law_wipe_always_removes_existing_file(outcomes: Seq<bool>)
    requires
        outcomes.len() >= 6,
    ensures
        !outcomes[0] ==> wipe_trace(WipeStep::CheckExists, outcomes) == seq![WipeStep::CheckExists],
        outcomes[0] && !outcomes[1] ==> wipe_trace(WipeStep::CheckExists, outcomes) == seq![
            WipeStep::CheckExists,
            WipeStep::Open,
            WipeStep::Remove,
        ],
        outcomes[0] && outcomes[1] ==> wipe_trace(WipeStep::CheckExists, outcomes) == seq![
            WipeStep::CheckExists,
            WipeStep::Open,
            WipeStep::Overwrite,
            WipeStep::Flush,
            WipeStep::Sync,
            WipeStep::Remove,
        ],
        wipe_trace(WipeStep::CheckExists, outcomes).last() == WipeStep::Remove <==> outcomes[0],
{
    let o = outcomes;
    let t0 = wipe_trace(WipeStep::CheckExists, o);
    let o1 = o.drop_first();
    let o2 = o1.drop_first();
    let o3 = o2.drop_first();
    let o4 = o3.drop_first();
    let o5 = o4.drop_first();
    let t1 = wipe_trace(WipeStep::Open, o1);
    let t2 = wipe_trace(WipeStep::Overwrite, o2);
    let t3 = wipe_trace(WipeStep::Flush, o3);
    let t4 = wipe_trace(WipeStep::Sync, o4);
    let t5 = wipe_trace(WipeStep::Remove, o5);
    let r2 = wipe_trace(WipeStep::Remove, o2);
    assert(t5 =~= seq![WipeStep::Remove]);
    assert(r2 =~= seq![WipeStep::Remove]);
    assert(t4 =~= seq![WipeStep::Sync, WipeStep::Remove]);
    assert(t3 =~= seq![WipeStep::Flush, WipeStep::Sync, WipeStep::Remove]);
    assert(t2 =~= seq![WipeStep::Overwrite, WipeStep::Flush, WipeStep::Sync, WipeStep::Remove]);
    assert(t0 == seq![WipeStep::CheckExists] + if o[0] { t1 } else { Seq::empty() });
    if o[0] {
        if o[1] {
            assert(t1 == seq![WipeStep::Open] + t2);
        } else {
            assert(t1 == seq![WipeStep::Open] + r2);
        }
    }
    assert(!o[0] ==> t0 =~= seq![WipeStep::CheckExists]);
}

/// The wipe never takes more than six steps: each step is followed by one
/// later in the order `CheckExists`, `Open`, `Overwrite`, `Flush`, `Sync`,
/// `Remove`, or by none.
pub proof fn law_wipe_moves_forward(step: WipeStep, succeeded: bool)
    ensures
        next_wipe_step(step, succeeded) matches Some(next) ==> wipe_rank(next) > wipe_rank(step),
        0 <= wipe_rank(step) < 6,
{
}

/// The place of a step in the order of the wipe.
pub open spec fn wipe_rank(step: WipeStep) -> int {
    match step {
        WipeStep::CheckExists => 0,
        WipeStep::Open => 1,
        WipeStep::Overwrite => 2,
        WipeStep::Flush => 3,
        WipeStep::Sync => 4,
        WipeStep::Remove => 5,
    }
}

} // verus!
