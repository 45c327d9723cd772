//! The class factory through which the host creates the text service.

use vstd::prelude::*;

use crate::error::ComError;
use crate::globals::{IID_TEXT_INPUT_PROCESSOR, IID_UNKNOWN};
use crate::guid::Guid;

verus! {

/// The factory of the text service.
#[derive(Clone, Copy, Debug, PartialEq, Eq, Structural)]
pub struct IMEClassFactory;

impl IMEClassFactory {
    pub fn new() -> (factory: IMEClassFactory)
        ensures
            factory == IMEClassFactory,
    {
        IMEClassFactory
    }

    /// Decides a request to create the text service. A request to aggregate
    /// is refused, and so is one for an interface that differs from that of
    /// text input processors or from that of every object.
    pub fn create_instance(&self, aggregated: bool, riid: Guid) -> (r: Result<(), ComError>)
        ensures
            r is Ok <==> !aggregated && !(riid != Guid(IID_TEXT_INPUT_PROCESSOR) || riid != Guid(
                IID_UNKNOWN,
            )),
            r matches Err(e) ==> e == ComError::NoInterface,
    {
        if aggregated {
            return Err(ComError::NoInterface);
        }
        if riid != Guid(IID_TEXT_INPUT_PROCESSOR) || riid != Guid(IID_UNKNOWN) {
            return Err(ComError::NoInterface);
        }
        Ok(())
    }
}

} // verus!
