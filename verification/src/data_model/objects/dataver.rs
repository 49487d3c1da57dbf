//! The version counter of a cluster instance and its change flag.
use vstd::prelude::*;

verus! {

/// The flag after a call of `raise`: a marker is pending, whether or not one
/// was before.
pub open spec fn raised(pending: bool) -> bool {
    true
}

/// The flag after `n` calls of `raise` in a row.
pub open spec fn raised_times(pending: bool, n: nat) -> bool
    decreases n,
{
    if n == 0 {
        pending
    } else {
        raised(raised_times(pending, (n - 1) as nat))
    }
}

/// What a call of `consume` hands out for a flag in the state `pending`: the
/// marker if one is pending, nothing otherwise.
pub open spec fn signal(pending: bool) -> Option<()> {
    if pending {
        Some(())
    } else {
        None
    }
}

/// The flag after a call of `consume`: no marker is pending.
pub open spec fn cleared(pending: bool) -> bool {
    false
}

/// A single-slot change signal. It does not count: any number of raises
/// between two calls of `consume` are handed out as one marker, and the
/// marker says nothing of what has changed.
#[derive(Clone, Copy, Debug)]
pub struct ChangeFlag {
    pending: bool,
}

impl View for ChangeFlag {
    type V = bool;

    /// Whether a marker is pending.
    closed spec fn view(&self) -> bool {
        self.pending
    }
}

impl ChangeFlag {
    /// A flag with no marker pending.
    pub fn new() -> (flag: ChangeFlag)
        ensures
            !flag@,
    {
        ChangeFlag { pending: false }
    }

    /// Whether a marker is pending.
    pub fn is_pending(&self) -> (pending: bool)
        ensures
            pending == self@,
    {
        self.pending
    }

    /// Sets the marker. Raising a raised flag changes nothing.
    pub fn raise(&mut self)
        ensures
            final(self)@ == raised(old(self)@),
    {
        self.pending = true;
    }

    /// Hands out the pending marker, if there is one, and clears the flag.
    pub fn consume(&mut self) -> (marker: Option<()>)
        ensures
            marker == signal(old(self)@),
            final(self)@ == cleared(old(self)@),
    {
        if self.pending {
            self.pending = false;
            Some(())
        } else {
            None
        }
    }
}

/// Raising is idempotent: a second raise leaves the flag as the first left
/// it.
pub proof fn lemma_raise_idempotent(pending: bool)
    ensures
        raised(raised(pending)) == raised(pending),
{
}

/// Changes coalesce. After one raise or many, whatever the flag held before,
/// the next `consume` hands out the marker; the `consume` that follows it at
/// once hands out nothing.
pub proof fn lemma_changes_coalesce(pending: bool, n: nat)
    requires
        n >= 1,
    ensures
        signal(raised_times(pending, n)) == Some(()),
        signal(cleared(raised_times(pending, n))) == None::<()>,
{
}

/// A flag that nothing has raised since it was last consumed hands out
/// nothing, however often it is asked.
pub proof fn lemma_consume_once(pending: bool)
    ensures
        signal(cleared(pending)) == None::<()>,
        cleared(cleared(pending)) == cleared(pending),
{
}

/// The model of a `Dataver`: the version, which no machine width bounds, and
/// whether a change is pending.
pub struct DataverView {
    pub version: nat,
    pub pending: bool,
}

impl DataverView {
    /// The state after one change: the version is one higher and a change is
    /// pending.
    pub open spec fn bumped(self) -> DataverView {
        DataverView { version: self.version + 1, pending: true }
    }

    /// The state after a write: bumped if the write changed the value, as it
    /// was if it did not.
    pub open spec fn written(self, effective: bool) -> DataverView {
        if effective {
            self.bumped()
        } else {
            self
        }
    }

    /// The state after the pending change was consumed. The version stays.
    pub open spec fn drained(self) -> DataverView {
        DataverView { version: self.version, pending: false }
    }
}

/// Writes coalesce as raises do. After two writes of which at least one
/// changed a value, the change is handed out once, and the version is not
/// touched by handing it out.
pub proof fn lemma_writes_coalesce(data_ver: DataverView, first: bool, second: bool)
    requires
        first || second,
    ensures
        signal(data_ver.written(first).written(second).pending) == Some(()),
        signal(data_ver.written(first).written(second).drained().pending) == None::<()>,
        data_ver.written(first).written(second).drained().version == data_ver.written(
            first,
        ).written(second).version,
{
}

/// Without a write that changed a value nothing becomes pending.
pub proof fn lemma_idle_writes_raise_nothing(data_ver: DataverView)
    ensures
        data_ver.written(false) == data_ver,
        signal(data_ver.drained().written(false).pending) == None::<()>,
{
}

/// The version counter of one cluster instance, with the instance's change
/// flag. The counter is 32 bits wide and is taken not to run over them in the
/// life of a device: `changed` asks for room.
#[derive(Debug)]
pub struct Dataver {
    ver: u32,
    changed: ChangeFlag,
}

impl Clone for Dataver {
    fn clone(&self) -> (data_ver: Self)
        ensures
            data_ver@ == self@,
    {
        Dataver { ver: self.ver, changed: self.changed }
    }
}

impl View for Dataver {
    type V = DataverView;

    closed spec fn view(&self) -> DataverView {
        DataverView { version: self.ver as nat, pending: self.changed@ }
    }
}

impl Dataver {
    /// A counter that starts at `initial`, with no change pending.
    pub fn new(initial: u32) -> (data_ver: Dataver)
        ensures
            data_ver@ == (DataverView { version: initial as nat, pending: false }),
    {
        Dataver { ver: initial, changed: ChangeFlag::new() }
    }

    /// The current version.
    pub fn get(&self) -> (version: u32)
        ensures
            version == self@.version,
    {
        self.ver
    }

    /// Whether a change is pending.
    pub fn is_changed(&self) -> (pending: bool)
        ensures
            pending == self@.pending,
    {
        self.changed.is_pending()
    }

    /// Records one change: advances the version by one, raises the change
    /// flag, and returns the new version.
    pub fn changed(&mut self) -> (version: u32)
        requires
            old(self)@.version < u32::MAX,
        ensures
            final(self)@ == old(self)@.bumped(),
            version == final(self)@.version,
    {
        self.ver = self.ver + 1;
        self.changed.raise();
        self.ver
    }

    /// Hands out `change` if a change is pending, and clears the flag. The
    /// version stays.
    pub fn consume_change<T>(&mut self, change: T) -> (consumed: Option<T>)
        ensures
            consumed == (if old(self)@.pending {
                Some(change)
            } else {
                None
            }),
            final(self)@ == old(self)@.drained(),
    {
        match self.changed.consume() {
            Some(_) => Some(change),
            None => None,
        }
    }
}

} // verus!
