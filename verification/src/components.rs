//! Client-side component model: the capabilities a pluggable component
//! offers the client for identity, offer policy, storage staging and
//! post-update finalizing.

use vstd::prelude::*;

use crate::protocol_definitions::CfuOfferResponseStatus;
use crate::protocol_definitions::CfuProtocolError;
use crate::protocol_definitions::ComponentId;
use crate::protocol_definitions::FwVersion;
use crate::protocol_definitions::RejectReason;
use crate::protocol_definitions::MAX_SUBCMPT_COUNT;
use crate::writer::CfuWriterError;
use crate::writer::CfuWriterSync;

verus! {

/// Identity and offer policy of one component.
pub trait CfuComponentInfo {
    /// The firmware version the component currently runs.
    fn get_fw_version(&self) -> Result<FwVersion, CfuProtocolError>;

    /// The component's id.
    fn get_component_id(&self) -> ComponentId;

    /// The component's policy verdict on the offer at hand: a status on
    /// acceptance, a status and a reject reason otherwise.
    fn is_offer_valid(&self) -> Result<
        CfuOfferResponseStatus,
        (CfuOfferResponseStatus, RejectReason),
    >;

    /// Whether this component receives the offer-information and extended
    /// command frames on behalf of the device. By default a component is
    /// not primary.
    fn is_primary_component(&self) -> (r: bool)
        default_ensures
            r == false,
    {
        false
    }

    /// Whether this component stages images in a second bank.
    fn is_dual_bank(&self) -> bool;

    /// The ids of this component's sub-components, if it has any.
    fn get_subcomponents(&self) -> [Option<ComponentId>; MAX_SUBCMPT_COUNT];
}

/// Storage staging of one component: prepare once per transaction, write
/// per block, finalize at the last block.
pub trait CfuComponentStorage: CfuWriterSync {
    fn storage_prepare(&self) -> Result<(), CfuWriterError>;

    fn storage_write(&self) -> Result<(), CfuWriterError>;

    fn storage_finalize(&self) -> Result<(), CfuWriterError>;

    /// Where in its storage the component stages the image. By default
    /// staging starts at the beginning.
    fn get_storage_offset(&self) -> (r: usize)
        default_ensures
            r == 0,
    {
        0
    }
}

/// Accessory components auto-reject offers while an update is already
/// running.
pub trait CfuAccessoryComponent {
    /// Whether an update is already in flight. By default no update is.
    fn is_midupdate(&self) -> (r: Result<bool, CfuProtocolError>)
        default_ensures
            r == Ok::<bool, CfuProtocolError>(false),
    {
        Ok(false)
    }
}

/// Post-update hook of one component: delays before reset, boot flags and
/// the like.
pub trait CfuComponentFinalize {
    /// Runs after the last block commits. The default does nothing and
    /// succeeds; it takes no arguments, so handing it any is reported as
    /// an error.
    fn on_update_complete<T, RT: Default, E: Default>(&self, args: Option<T>) -> (r: Result<RT, E>)
        default_ensures
            args is None ==> r is Ok,
            args is Some ==> r is Err,
    {
        if args.is_some() {
            Err(E::default())
        } else {
            Ok(RT::default())
        }
    }
}

/// The full component capability set the engine relies on.
pub trait CfuComponentTraits: CfuComponentInfo + CfuComponentStorage + Default {

}

} // verus!
