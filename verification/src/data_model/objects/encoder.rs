//! The way of a read to its sink: the sink itself, the version filter that
//! decides whether anything is handed to it, and the writer that hands it
//! over.
use vstd::prelude::*;

use super::attribute::AttrDetails;
use super::value::{AttrValue, AttrValueView};
use crate::error::Error;

verus! {

/// One piece of what a read hands to the sink.
#[derive(Debug, PartialEq, Eq)]
pub enum Emitted {
    /// The value of the attribute.
    Value(AttrValue),
    /// The version of the cluster instance at the time of the read: what the
    /// requester has seen from now on.
    DataVersion(u32),
}

/// The model of an `Emitted`.
pub enum EmittedView {
    Value(AttrValueView),
    DataVersion(u32),
}

impl View for Emitted {
    type V = EmittedView;

    open spec fn view(&self) -> EmittedView {
        match *self {
            Emitted::Value(value) => EmittedView::Value(value@),
            Emitted::DataVersion(dataver) => EmittedView::DataVersion(dataver),
        }
    }
}

impl Clone for Emitted {
    fn clone(&self) -> (piece: Self)
        ensures
            piece@ == self@,
    {
        match self {
            Emitted::Value(value) => Emitted::Value(value.clone()),
            Emitted::DataVersion(dataver) => Emitted::DataVersion(*dataver),
        }
    }
}

/// The models of the pieces of `items`, in their order.
pub open spec fn views(items: Seq<Emitted>) -> Seq<EmittedView> {
    items.map_values(|piece: Emitted| piece@)
}

/// The model of an `AttrSink`: the pieces that it holds, the first taken
/// first, and the number of pieces that it can still take.
pub struct AttrSinkView {
    pub items: Seq<EmittedView>,
    pub room: nat,
}

/// How a read ends: its result, and the sink as the read leaves it.
pub struct ReadOutcome {
    pub result: Result<(), Error>,
    pub sink: AttrSinkView,
}

impl AttrSinkView {
    /// The sink after it took `value` and then `dataver`.
    pub open spec fn emit(self, value: AttrValueView, dataver: u32) -> AttrSinkView {
        AttrSinkView {
            items: self.items.push(EmittedView::Value(value)).push(EmittedView::DataVersion(dataver)),
            room: (self.room - 2) as nat,
        }
    }

    /// The outcome of handing `value` and then `dataver` to the sink. A read
    /// is all or nothing: a sink with room for both takes both, and one
    /// without is left as it is, with `EncodingFailure`.
    pub open spec fn write(self, value: AttrValueView, dataver: u32) -> ReadOutcome {
        if self.room >= 2 {
            ReadOutcome { result: Ok(()), sink: self.emit(value, dataver) }
        } else {
            ReadOutcome { result: Err(Error::EncodingFailure), sink: self }
        }
    }
}

/// Where reads put their data. A sink takes a bounded number of pieces, as a
/// buffer of an encoder does, and holds the data of one read after that of
/// the other.
#[derive(Debug)]
pub struct AttrSink {
    items: Vec<Emitted>,
    room: usize,
}

impl View for AttrSink {
    type V = AttrSinkView;

    closed spec fn view(&self) -> AttrSinkView {
        AttrSinkView { items: views(self.items@), room: self.room as nat }
    }
}

impl AttrSink {
    /// An empty sink that takes up to `capacity` pieces.
    pub fn new(capacity: usize) -> (sink: AttrSink)
        ensures
            sink@ == (AttrSinkView { items: Seq::empty(), room: capacity as nat }),
    {
        let sink = AttrSink { items: Vec::new(), room: capacity };
        assert(sink@.items =~= Seq::empty());
        sink
    }

    /// The number of pieces that the sink can still take.
    pub fn room(&self) -> (room: usize)
        ensures
            room == self@.room,
    {
        self.room
    }

    /// The number of pieces that the sink holds.
    pub fn len(&self) -> (len: usize)
        ensures
            len == self@.items.len(),
    {
        self.items.len()
    }

    /// The pieces that the sink holds, the first taken first.
    pub fn items(&self) -> (items: &Vec<Emitted>)
        ensures
            views(items@) == self@.items,
    {
        &self.items
    }

    /// Gives up the sink for the pieces that it holds.
    pub fn into_items(self) -> (items: Vec<Emitted>)
        ensures
            views(items@) == self@.items,
    {
        self.items
    }
}

/// Whether a requester that saw the version `last_known` last has seen the
/// version `current`: whether a read for it can leave the data out.
pub open spec fn unchanged_since(current: u32, last_known: Option<u32>) -> bool {
    last_known == Some(current)
}

/// The version filter lets through every requester but the one that names
/// the current version: one that names the version before it, or any other,
/// and one that names none.
pub proof fn lemma_version_filter(current: u32, last_known: u32)
    ensures
        unchanged_since(current, Some(current)),
        last_known != current ==> !unchanged_since(current, Some(last_known)),
        current > 0 ==> !unchanged_since(current, Some((current - 1) as u32)),
        !unchanged_since(current, None),
{
}

/// The outcome of a read that the version filter and the dispatch have
/// decided. `dataver` is the version of the instance, `filter` the version
/// that the requester saw last, `resolved` the value that the dispatch found
/// for the attribute, if it found one, and `sink` the sink before the read.
///
/// The filter comes first: a requester that has seen the current version gets
/// nothing, whatever it asked for, and the read succeeds. Then an attribute
/// that the dispatch did not find fails the read. Else the sink gets the
/// value and then the version, or fails the read if it has no room for both.
pub open spec fn read_outcome(
    dataver: u32,
    filter: Option<u32>,
    resolved: Option<AttrValueView>,
    sink: AttrSinkView,
) -> ReadOutcome {
    if unchanged_since(dataver, filter) {
        ReadOutcome { result: Ok(()), sink }
    } else {
        match resolved {
            Some(value) => sink.write(value, dataver),
            None => ReadOutcome { result: Err(Error::UnsupportedAttribute), sink },
        }
    }
}

/// Hands the value of an attribute, and the version that goes with it, to a
/// sink. A writer comes out of the version filter, so that what holds one
/// knows that the requester is owed the data.
pub struct AttrDataWriter<'a> {
    /// The version of the instance that is read.
    pub dataver: u32,
    pub sink: &'a mut AttrSink,
}

impl<'a> AttrDataWriter<'a> {
    /// Hands `value` to the sink, and after it the version. If the sink has
    /// no room for both it is left as it was, and the read fails with
    /// `EncodingFailure`.
    pub fn set(self, value: AttrValue) -> (result: Result<(), Error>)
        ensures
            result == old(self.sink)@.write(value@, self.dataver).result,
            final(self.sink)@ == old(self.sink)@.write(value@, self.dataver).sink,
    {
        let AttrDataWriter { dataver, sink } = self;
        if sink.room < 2 {
            return Err(Error::EncodingFailure);
        }
        let ghost before = sink.items@;
        let ghost first = Emitted::Value(value);
        sink.items.push(Emitted::Value(value));
        sink.items.push(Emitted::DataVersion(dataver));
        sink.room = sink.room - 2;
        assert(views(sink.items@) =~= views(before).push(first@).push(
            EmittedView::DataVersion(dataver),
        ));
        Ok(())
    }
}

/// The version filter of a read. `current_version` is the version of the
/// instance, `last_known_version` the one that the requester saw last. A
/// requester that has seen the current version is owed nothing: there is no
/// writer, and the sink stays as it is. Any other requester, and one that
/// names no version, gets a writer onto `sink` that carries the current
/// version.
pub fn prepare_read<'a>(
    current_version: u32,
    last_known_version: Option<u32>,
    sink: &'a mut AttrSink,
) -> (writer: Option<AttrDataWriter<'a>>)
    ensures
        writer is None <==> unchanged_since(current_version, last_known_version),
        writer is None ==> *final(sink) == *old(sink),
        writer matches Some(w) ==> w.dataver == current_version && *w.sink == *old(sink)
            && *final(sink) == *final(w.sink),
{
    match last_known_version {
        Some(seen) => {
            if seen == current_version {
                None
            } else {
                Some(AttrDataWriter { dataver: current_version, sink })
            }
        },
        None => Some(AttrDataWriter { dataver: current_version, sink }),
    }
}

/// A read on its way to the sink, before the version filter: the version
/// that the requester saw last, and the sink.
pub struct AttrDataEncoder<'a> {
    /// The version that the requester saw last, if it said so.
    pub dataver_filter: Option<u32>,
    pub sink: &'a mut AttrSink,
}

impl<'a> AttrDataEncoder<'a> {
    /// The encoder for the request `attr`, onto `sink`.
    pub fn new(attr: &AttrDetails, sink: &'a mut AttrSink) -> (encoder: AttrDataEncoder<'a>)
        ensures
            encoder.dataver_filter == attr.dataver,
            *encoder.sink == *old(sink),
            *final(sink) == *final(encoder.sink),
    {
        AttrDataEncoder { dataver_filter: attr.dataver, sink }
    }

    /// Passes the read through the version filter, for an instance whose
    /// version is `dataver`: see `prepare_read`.
    pub fn with_dataver(self, dataver: u32) -> (writer: Option<AttrDataWriter<'a>>)
        ensures
            writer is None <==> unchanged_since(dataver, self.dataver_filter),
            writer is None ==> *final(self.sink) == *old(self.sink),
            writer matches Some(w) ==> w.dataver == dataver && *w.sink == *old(self.sink)
                && *final(self.sink) == *final(w.sink),
    {
        let AttrDataEncoder { dataver_filter, sink } = self;
        prepare_read(dataver, dataver_filter, sink)
    }
}

} // verus!
