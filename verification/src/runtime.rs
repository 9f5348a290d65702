//! The container runtime backend as built on hosts without the Linux OCI
//! backend: every probe reports "nothing available" and every operation fails
//! with an "only available on Linux" error.
use vstd::prelude::*;

verus! {

/// `std::path::PathBuf`, carried through unread.
#[verifier::external_type_specification]
#[verifier::external_body]
pub struct ExPathBuf(std::path::PathBuf);

/// `std::path::Path`, carried through unread.
#[verifier::external_type_specification]
#[verifier::external_body]
pub struct ExPath(std::path::Path);

/// Which copy-on-write root filesystem mechanism the host offers.
#[derive(Debug, Clone, Copy, PartialEq, Eq, Structural)]
pub enum RootfsCapability {
    Unavailable,
    Overlay,
    Btrfs,
}

/// The kind of a platform error.
#[derive(Debug, Clone, Copy, PartialEq, Eq, Structural)]
pub enum PlatformErrorKind {
    /// The operation is not supported on this platform.
    Unsupported,
}

/// An error raised because the backend does not exist on this platform.
#[derive(Debug, Clone)]
pub struct PlatformError {
    pub kind: PlatformErrorKind,
    pub message: String,
}

/// Errors of container operations.
#[derive(Debug, Clone)]
pub enum ContainerError {
    /// The operation could not be carried out on the named container.
    OperationFailed { container_id: String, message: String },
}

/// The message of the error that every backend entry point returns here.
pub open spec fn not_available_message() -> Seq<char> {
    "YoukiManager is only available on Linux"@
}

/// The error that every backend entry point returns on this platform.
pub fn not_available() -> (e: PlatformError)
    ensures
        e.kind == PlatformErrorKind::Unsupported,
        e.message@ == not_available_message(),
{
    PlatformError {
        kind: PlatformErrorKind::Unsupported,
        message: String::from_str("YoukiManager is only available on Linux"),
    }
}

/// The error of a container operation that the backend cannot carry out here.
pub open spec fn is_unavailable(e: ContainerError) -> bool {
    match e {
        ContainerError::OperationFailed { container_id, message } => {
            &&& container_id@ == "n/a"@
            &&& message@ == not_available_message()
        },
    }
}

/// The error that every container operation of the backend returns here: on
/// this platform every call reports that the backend is only available on
/// Linux.
pub fn err() -> (e: ContainerError)
    ensures
        is_unavailable(e),
{
    ContainerError::OperationFailed {
        container_id: String::from_str("n/a"),
        message: String::from_str("YoukiManager is only available on Linux"),
    }
}

/// Whether the current process runs inside a container; never, here.
pub fn detect_inside_container() -> (inside: bool)
    ensures
        !inside,
{
    false
}

/// The root filesystem mechanism available under a directory; none, here.
pub fn detect_rootfs_capability(_dir: &std::path::PathBuf) -> (cap: RootfsCapability)
    ensures
        cap == RootfsCapability::Unavailable,
{
    RootfsCapability::Unavailable
}

/// The rootless OCI backend; it cannot be created on this platform.
pub struct YoukiManager;

impl YoukiManager {
    /// Creating the backend always fails with [`not_available`]'s error.
    pub fn new(_data_dir: &std::path::Path) -> (r: Result<Self, PlatformError>)
        ensures
            r matches Err(e) && e.kind == PlatformErrorKind::Unsupported && e.message@
                == not_available_message(),
    {
        Err(not_available())
    }

    /// Initialising the backend always fails with [`not_available`]'s error.
    pub fn initialize(&self) -> (r: Result<(), PlatformError>)
        ensures
            r matches Err(e) && e.kind == PlatformErrorKind::Unsupported && e.message@
                == not_available_message(),
    {
        Err(not_available())
    }

    /// Starts a container; this always fails here.
    pub fn start(&self, _container: &str) -> (r: Result<(), ContainerError>)
        ensures
            r matches Err(e) && is_unavailable(e),
    {
        Err(err())
    }

    /// Stops a container; this always fails here.
    pub fn stop(&self, _container: &str) -> (r: Result<(), ContainerError>)
        ensures
            r matches Err(e) && is_unavailable(e),
    {
        Err(err())
    }

    /// Removes a container; this always fails here.
    pub fn remove(&self, _container: &str, _force: bool) -> (r: Result<(), ContainerError>)
        ensures
            r matches Err(e) && is_unavailable(e),
    {
        Err(err())
    }

    /// Restarts a container; this always fails here.
    pub fn restart(&self, _container: &str) -> (r: Result<(), ContainerError>)
        ensures
            r matches Err(e) && is_unavailable(e),
    {
        Err(err())
    }

    /// Whether a container runs; this always fails here.
    pub fn is_running(&self, _container: &str) -> (r: Result<bool, ContainerError>)
        ensures
            r matches Err(e) && is_unavailable(e),
    {
        Err(err())
    }

    /// Commits a container to an image; this always fails here.
    pub fn commit(&self, _container: &str, _image: &str, _message: Option<&str>) -> (r: Result<String, ContainerError>)
        ensures
            r matches Err(e) && is_unavailable(e),
    {
        Err(err())
    }

    /// Commits a container to an image with labels; this always fails here.
    pub fn commit_with_labels(
        &self,
        _container: &str,
        _image: &str,
        _message: Option<&str>,
        _labels: Option<&std::collections::HashMap<String, String>>,
    ) -> (r: Result<String, ContainerError>)
        ensures
            r matches Err(e) && is_unavailable(e),
    {
        Err(err())
    }

    /// Pulls an image; this always fails here.
    pub fn pull_image(&self, _image: &str) -> (r: Result<String, ContainerError>)
        ensures
            r matches Err(e) && is_unavailable(e),
    {
        Err(err())
    }

    /// Whether an image exists; this always fails here.
    pub fn image_exists(&self, _image: &str) -> (r: Result<bool, ContainerError>)
        ensures
            r matches Err(e) && is_unavailable(e),
    {
        Err(err())
    }

    /// Removes an image; this always fails here.
    pub fn remove_image(&self, _image: &str, _force: bool) -> (r: Result<(), ContainerError>)
        ensures
            r matches Err(e) && is_unavailable(e),
    {
        Err(err())
    }

    /// Removes a container and its image; this always fails here.
    pub fn remove_with_image(&self, _container: &str, _image: &str, _force: bool) -> (r: Result<(), ContainerError>)
        ensures
            r matches Err(e) && is_unavailable(e),
    {
        Err(err())
    }

    /// Creates a volume; this always fails here.
    pub fn create_volume(&self, _volume: &str) -> (r: Result<String, ContainerError>)
        ensures
            r matches Err(e) && is_unavailable(e),
    {
        Err(err())
    }

    /// Removes a volume; this always fails here.
    pub fn remove_volume(&self, _volume: &str, _force: bool) -> (r: Result<(), ContainerError>)
        ensures
            r matches Err(e) && is_unavailable(e),
    {
        Err(err())
    }

    /// Whether a volume exists; this always fails here.
    pub fn volume_exists(&self, _volume: &str) -> (r: Result<bool, ContainerError>)
        ensures
            r matches Err(e) && is_unavailable(e),
    {
        Err(err())
    }

    /// The last log lines of a container; this always fails here.
    pub fn logs(&self, _container: &str, _tail: usize) -> (r: Result<Vec<String>, ContainerError>)
        ensures
            r matches Err(e) && is_unavailable(e),
    {
        Err(err())
    }

    /// The log of a container; this always fails here.
    pub fn get_container_logs(&self, _container: &str, _tail: usize) -> (r: Result<String, ContainerError>)
        ensures
            r matches Err(e) && is_unavailable(e),
    {
        Err(err())
    }

    /// Downloads a path of a container as an archive; this always fails here.
    pub fn download_archive(&self, _container: &str, _path: &str) -> (r: Result<Vec<u8>, ContainerError>)
        ensures
            r matches Err(e) && is_unavailable(e),
    {
        Err(err())
    }

    /// Uploads an archive into a path of a container; this always fails here.
    pub fn upload_archive(&self, _container: &str, _path: &str, _archive: Vec<u8>) -> (r: Result<(), ContainerError>)
        ensures
            r matches Err(e) && is_unavailable(e),
    {
        Err(err())
    }
}

} // verus!
