//! What a cluster offers to the layers around it: reads, invocations and the
//! change signal.
use vstd::prelude::*;

use super::attribute::{is_system_attr, AttrDetails, AttrId, CmdDetails, CmdId};
use super::cluster::ClusterView;
use super::encoder::{read_outcome, unchanged_since, AttrDataEncoder, AttrSinkView, ReadOutcome};
use super::value::AttrValueView;
use crate::error::Error;

verus! {

/// A cluster instance as the layers around it see it. They read its
/// attributes and invoke its commands by number; the handler resolves the
/// number, and fails the request if it cannot.
///
/// The dispatch is closed, and it agrees with the metadata: the handler
/// serves the attributes that its metadata declares, and no other; it has
/// handlers only for commands that its metadata accepts. An implementation
/// proves both.
pub trait Handler {
    /// The metadata of the cluster type.
    spec fn cluster(&self) -> ClusterView;

    /// The version of the instance.
    spec fn dataver(&self) -> u32;

    /// What the cell of the attribute `id` holds; `None` where the instance
    /// has no cell with that number.
    spec fn cell(&self, id: AttrId) -> Option<AttrValueView>;

    /// Whether the instance has a handler for the command `id`.
    spec fn handles(&self, id: CmdId) -> bool;

    /// The attributes that the dispatch finds are those that the metadata
    /// declares.
    proof fn lemma_dispatch_matches_metadata(&self, id: AttrId)
        ensures
            self.cluster().resolve(id, self.cell(id)) is Some <==> self.cluster().declares(id),
    ;

    /// A command with a handler is one that the metadata accepts.
    proof fn lemma_handlers_match_metadata(&self, id: CmdId)
        ensures
            self.handles(id) ==> self.cluster().accepts(id),
    ;

    /// Reads the attribute that `attr` names into the encoder's sink.
    ///
    /// A requester that has seen the current version gets nothing, and the
    /// read succeeds. Any other gets the value of the attribute and after it
    /// the current version. The read fails, and leaves the sink as it was,
    /// with `UnsupportedAttribute` where the cluster does not declare the
    /// attribute and with `EncodingFailure` where the sink has no room.
    fn read(&self, attr: &AttrDetails, encoder: AttrDataEncoder<'_>) -> (result: Result<(), Error>)
        ensures
            result == read_outcome(
                self.dataver(),
                encoder.dataver_filter,
                self.cluster().resolve(attr.attr_id, self.cell(attr.attr_id)),
                old(encoder.sink)@,
            ).result,
            final(encoder.sink)@ == read_outcome(
                self.dataver(),
                encoder.dataver_filter,
                self.cluster().resolve(attr.attr_id, self.cell(attr.attr_id)),
                old(encoder.sink)@,
            ).sink,
            self.cluster().declares(attr.attr_id) ==> result != Err::<(), Error>(
                Error::UnsupportedAttribute,
            ),
            !self.cluster().declares(attr.attr_id) && !unchanged_since(
                self.dataver(),
                encoder.dataver_filter,
            ) ==> result == Err::<(), Error>(Error::UnsupportedAttribute),
    ;

    /// Invokes the command that `cmd` names, with the payload `_data`.
    ///
    /// The invocation fails with `UnsupportedCommand` where the cluster does
    /// not accept the command, and with `InternalInconsistency` where it
    /// accepts a command that it has no handler for.
    fn invoke(&self, cmd: &CmdDetails, _data: &[u8]) -> (result: Result<(), Error>)
        ensures
            result == self.cluster().invoke(cmd.cmd_id, self.handles(cmd.cmd_id)),
            !self.cluster().accepts(cmd.cmd_id) ==> result == Err::<(), Error>(
                Error::UnsupportedCommand,
            ),
    ;
}

/// How a read of the attribute `id` from `handler` ends, for a requester that
/// saw the version `filter` last and a sink that is `sink` before the read:
/// what `Handler::read` promises, by name.
pub open spec fn spec_read<H: Handler + ?Sized>(
    handler: &H,
    id: AttrId,
    filter: Option<u32>,
    sink: AttrSinkView,
) -> ReadOutcome {
    read_outcome(handler.dataver(), filter, handler.cluster().resolve(id, handler.cell(id)), sink)
}

/// The dispatch is total: a read of an attribute that the cluster declares
/// is never refused as unsupported, whoever asks and whatever the sink
/// holds.
pub proof fn lemma_dispatch_total<H: Handler>(
    handler: &H,
    id: AttrId,
    filter: Option<u32>,
    sink: AttrSinkView,
)
    requires
        handler.cluster().declares(id),
    ensures
        spec_read(handler, id, filter, sink).result != Err::<(), Error>(Error::UnsupportedAttribute),
{
    handler.lemma_dispatch_matches_metadata(id);
}

/// The dispatch rejects what it does not know: a read of an attribute that
/// is neither global nor declared fails with `UnsupportedAttribute` and
/// leaves the sink as it was. The version filter comes before the dispatch,
/// so this is the lot of a requester that has not seen the current version;
/// one that has is told so, and no more.
pub proof fn lemma_dispatch_rejects<H: Handler>(
    handler: &H,
    id: AttrId,
    filter: Option<u32>,
    sink: AttrSinkView,
)
    requires
        !handler.cluster().declares(id),
        !is_system_attr(id),
        !unchanged_since(handler.dataver(), filter),
    ensures
        spec_read(handler, id, filter, sink) == (ReadOutcome {
            result: Err(Error::UnsupportedAttribute),
            sink,
        }),
{
    handler.lemma_dispatch_matches_metadata(id);
}

/// A read for a requester that has seen the current version hands out
/// nothing and succeeds, whatever attribute it names.
pub proof fn lemma_unchanged_reads_nothing<H: Handler>(handler: &H, id: AttrId, sink: AttrSinkView)
    ensures
        spec_read(handler, id, Some(handler.dataver()), sink) == (ReadOutcome { result: Ok(()), sink }),
{
}

/// A read is all or nothing. One that fails leaves the sink as it was. One
/// that succeeds has handed out nothing, for a requester that has seen the
/// current version, or the value of the attribute and after it the current
/// version.
pub proof fn lemma_read_all_or_nothing<H: Handler>(
    handler: &H,
    id: AttrId,
    filter: Option<u32>,
    sink: AttrSinkView,
)
    ensures
        spec_read(handler, id, filter, sink).result is Err ==> spec_read(handler, id, filter, sink).sink
            == sink,
        spec_read(handler, id, filter, sink).result is Ok && unchanged_since(handler.dataver(), filter)
            ==> spec_read(handler, id, filter, sink).sink == sink,
        spec_read(handler, id, filter, sink).result is Ok && !unchanged_since(handler.dataver(), filter)
            ==> handler.cluster().resolve(id, handler.cell(id)) is Some && spec_read(
            handler,
            id,
            filter,
            sink,
        ).sink == sink.emit(
            handler.cluster().resolve(id, handler.cell(id))->Some_0,
            handler.dataver(),
        ),
{
}

/// An invocation succeeds only for a command that the cluster accepts.
pub proof fn lemma_invoke_only_accepted<H: Handler>(handler: &H, id: CmdId)
    ensures
        handler.cluster().invoke(id, handler.handles(id)) is Ok ==> handler.cluster().accepts(id),
        handler.cluster().invoke(id, handler.handles(id)) is Ok <==> handler.handles(id),
{
    handler.lemma_handlers_match_metadata(id);
}

/// A source of change signals: something that an observer polls to learn
/// whether it has changed since the observer last asked.
pub trait ChangeNotifier<T> {
    /// Whether a change is pending.
    spec fn change_pending(&self) -> bool;

    /// Hands out the signal if a change is pending, and clears it. The
    /// signal does not say what has changed: the observer reads again what
    /// it cares for.
    fn consume_change(&mut self) -> (change: Option<T>)
        ensures
            change is Some <==> old(self).change_pending(),
            !final(self).change_pending(),
    ;
}

} // verus!
