//! GPU resource handles.

use vstd::prelude::*;

use crate::call::Call;
use crate::error::LibraryError;

verus! {

/// Error type for resource operations.
#[derive(Debug)]
pub enum ResourcesError {
    /// The C library reported a failure.
    Library(LibraryError),
}

impl ResourcesError {
    /// The message of the error.
    pub open spec fn message(self) -> Seq<char> {
        match self {
            ResourcesError::Library(e) => e.0@,
        }
    }

    pub fn to_string(&self) -> (r: String)
        ensures
            r@ == self.message(),
    {
        match self {
            ResourcesError::Library(e) => e.to_string(),
        }
    }
}

impl vstd::std_specs::convert::FromSpecImpl<LibraryError> for ResourcesError {
    open spec fn obeys_from_spec() -> bool {
        true
    }

    open spec fn from_spec(e: LibraryError) -> ResourcesError {
        ResourcesError::Library(e)
    }
}

impl From<LibraryError> for ResourcesError {
    fn from(e: LibraryError) -> (r: ResourcesError) {
        ResourcesError::Library(e)
    }
}

/// GPU resources (a stream, library handles) bound to a device and a thread,
/// by the handle that the C library gave them.
///
/// The value can be neither copied nor cloned: [`Resources::close`] takes it
/// away, so that the handle is destroyed once.
#[derive(Debug)]
pub struct Resources {
    pub handle: usize,
}

impl Resources {
    /// Takes over the handle that the C library made.
    pub fn new(created: Result<usize, LibraryError>) -> (r: Result<Resources, ResourcesError>)
        ensures
            match created {
                Ok(handle) => r matches Ok(res) && res.handle == handle,
                Err(e) => r == Err::<Resources, ResourcesError>(ResourcesError::Library(e)),
            },
    {
        match created {
            Ok(handle) => Ok(Resources { handle }),
            Err(e) => Err(ResourcesError::from(e)),
        }
    }

    /// Destroys the resources.
    pub fn close(self) -> (r: Call<'static>)
        ensures
            r == (Call::ResourcesDestroy { res: self.handle }),
    {
        Call::ResourcesDestroy { res: self.handle }
    }

    /// Attaches a CUDA stream of the same device. Later operations are enqueued
    /// on it; it has to stay valid for as long.
    pub fn set_stream(&self, stream: usize) -> (r: Call<'static>)
        ensures
            r == (Call::StreamSet { res: self.handle, stream }),
    {
        Call::StreamSet { res: self.handle, stream }
    }

    /// Asks for the current CUDA stream.
    pub fn stream(&self) -> (r: Call<'static>)
        ensures
            r == (Call::StreamGet { res: self.handle }),
    {
        Call::StreamGet { res: self.handle }
    }

    /// Waits for all operations on the current stream.
    pub fn sync_stream(&self) -> (r: Call<'static>)
        ensures
            r == (Call::StreamSync { res: self.handle }),
    {
        Call::StreamSync { res: self.handle }
    }

    /// Asks for the number of the CUDA device.
    pub fn device_id(&self) -> (r: Call<'static>)
        ensures
            r == (Call::DeviceIdGet { res: self.handle }),
    {
        Call::DeviceIdGet { res: self.handle }
    }

    /// The handle, for the calls of other modules.
    pub fn handle(&self) -> (r: usize)
        ensures
            r == self.handle,
    {
        self.handle
    }
}

} // verus!
