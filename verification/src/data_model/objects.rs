//! What every cluster is made of: the version counter, the cells, the
//! metadata, the version filter of a read and the dispatch.
pub mod attribute;
pub mod cell;
pub mod cluster;
pub mod dataver;
pub mod encoder;
pub mod handler;
pub mod value;

pub use attribute::{
    is_system_attr, Access, AttrDetails, AttrId, Attribute, ClusterId, CmdDetails, CmdId,
    GlobalElements, Quality,
};
pub use cell::{AttrCell, CellValue, Stored};
pub use cluster::{cluster_attrs, ids_of, spec_cluster_attrs, Cluster, ClusterView};
pub use dataver::{ChangeFlag, Dataver, DataverView};
pub use encoder::{
    prepare_read, read_outcome, unchanged_since, AttrDataEncoder, AttrDataWriter, AttrSink,
    AttrSinkView, Emitted, EmittedView, ReadOutcome,
};
pub use handler::{spec_read, ChangeNotifier, Handler};
pub use value::{AttrValue, AttrValueView};
