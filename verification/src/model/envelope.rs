//! The version envelopes and the bridged message made of them.

use vstd::prelude::*;
use crate::model::junction::{JunctionView, Junctions};
use crate::model::instruction::{InstructionView, Xcm};

verus! {

/// The interior of the destination, under a version tag. Only version 5 is
/// decoded in full; of versions 3 and 4 the payload is walked to find its
/// end and kept as it was encoded.
#[derive(Debug, PartialEq, Eq)]
pub enum VersionedInteriorLocation {
    V5(Junctions),
    Unsupported { version: u8, encoded: Vec<u8> },
}

/// The view of [`VersionedInteriorLocation`].
pub enum VersionedInteriorLocationView {
    V5(Seq<JunctionView>),
    Unsupported { version: u8, encoded: Seq<u8> },
}

impl View for VersionedInteriorLocation {
    type V = VersionedInteriorLocationView;

    open spec fn view(&self) -> VersionedInteriorLocationView {
        match *self {
            VersionedInteriorLocation::V5(interior) => VersionedInteriorLocationView::V5(interior@),
            VersionedInteriorLocation::Unsupported { version, encoded } => {
                VersionedInteriorLocationView::Unsupported { version, encoded: encoded@ }
            },
        }
    }
}

/// A program under a version tag. Only version 5 is decoded in full; of
/// versions 3 and 4 the payload is walked to find its end and kept as it
/// was encoded.
#[derive(Debug, PartialEq, Eq)]
pub enum VersionedXcm {
    V5(Xcm),
    Unsupported { version: u8, encoded: Vec<u8> },
}

/// The view of [`VersionedXcm`].
pub enum VersionedXcmView {
    V5(Seq<InstructionView>),
    Unsupported { version: u8, encoded: Seq<u8> },
}

impl View for VersionedXcm {
    type V = VersionedXcmView;

    open spec fn view(&self) -> VersionedXcmView {
        match *self {
            VersionedXcm::V5(xcm) => VersionedXcmView::V5(xcm@),
            VersionedXcm::Unsupported { version, encoded } => VersionedXcmView::Unsupported {
                version,
                encoded: encoded@,
            },
        }
    }
}

/// A message sent over a bridge: where it is to go, and what is to run
/// there.
#[derive(Debug, PartialEq, Eq)]
pub struct BridgeMessage {
    pub universal_dest: VersionedInteriorLocation,
    pub message: VersionedXcm,
}

/// The view of [`BridgeMessage`].
pub struct BridgeMessageView {
    pub universal_dest: VersionedInteriorLocationView,
    pub message: VersionedXcmView,
}

impl View for BridgeMessage {
    type V = BridgeMessageView;

    open spec fn view(&self) -> BridgeMessageView {
        BridgeMessageView { universal_dest: self.universal_dest@, message: self.message@ }
    }
}

} // verus!
