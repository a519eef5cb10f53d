//! Sharing a host directory with the guest over virtio-9p.

use vstd::prelude::*;
use vstd::utf8::encode_utf8;
use crate::error::QckerError;
use crate::paths::path_exists;
use crate::text::{owned, push_str};
use crate::digest::{sha256, sha256_digest, hex_lower, hex_encode, lemma_hex_lower_prefix, lemma_hex_lower_len};

verus! {

/// A host directory exported to the guest under a mount tag.
#[derive(Debug, Clone)]
pub struct FsShareConfig {
    pub host_path: String,
    pub mount_tag: String,
    pub read_only: bool,
}

/// The `-fsdev` value of a share.
pub open spec fn fsdev_arg(tag: Seq<char>, host: Seq<char>, read_only: bool) -> Seq<char> {
    "local,id="@ + tag + ",path="@ + host + ",security_model=mapped-xattr"@ + (if read_only {
        ",readonly"@
    } else {
        Seq::empty()
    })
}

/// The `-device` value of a share.
pub open spec fn virtio_9p_arg(tag: Seq<char>) -> Seq<char> {
    "virtio-9p-pci,fsdev="@ + tag + ",mount_tag="@ + tag
}

/// The text of the error for a host path that does not exist.
pub open spec fn missing_host_text(host: Seq<char>) -> Seq<char> {
    "Host path does not exist: "@ + host
}

/// The first 8 hex digits of the SHA-256 of the UTF-8 bytes of `s`.
pub open spec fn short_hash(s: Seq<char>) -> Seq<char> {
    hex_lower(sha256(encode_utf8(s))).take(8)
}

/// The mount tag of a bind mount of `host`: `mnt-` and the short hash of
/// the path.
pub open spec fn bind_tag(host: Seq<char>) -> Seq<char> {
    "mnt-"@ + short_hash(host)
}

impl FsShareConfig {
    /// A share of `host_path` under `mount_tag`.
    pub fn new(host_path: String, mount_tag: String, read_only: bool) -> (r: Self)
        ensures
            r.host_path@ == host_path@,
            r.mount_tag@ == mount_tag@,
            r.read_only == read_only,
    {
        FsShareConfig { host_path, mount_tag, read_only }
    }

    /// The QEMU arguments that export this share: `-fsdev` with the local
    /// backend (read-only when asked) and `-device` with a virtio-9p device
    /// bound to it.
    pub fn to_qemu_args(&self) -> (r: Vec<String>)
        ensures
            r@.len() == 4,
            r@[0]@ == "-fsdev"@,
            r@[1]@ == fsdev_arg(self.mount_tag@, self.host_path@, self.read_only),
            r@[2]@ == "-device"@,
            r@[3]@ == virtio_9p_arg(self.mount_tag@),
    {
        let mut fsdev = owned("local,id=");
        push_str(&mut fsdev, self.mount_tag.as_str());
        push_str(&mut fsdev, ",path=");
        push_str(&mut fsdev, self.host_path.as_str());
        push_str(&mut fsdev, ",security_model=mapped-xattr");
        if self.read_only {
            push_str(&mut fsdev, ",readonly");
        }
        assert(fsdev@ =~= fsdev_arg(self.mount_tag@, self.host_path@, self.read_only));
        let mut dev = owned("virtio-9p-pci,fsdev=");
        push_str(&mut dev, self.mount_tag.as_str());
        push_str(&mut dev, ",mount_tag=");
        push_str(&mut dev, self.mount_tag.as_str());
        assert(dev@ =~= virtio_9p_arg(self.mount_tag@));
        let mut r: Vec<String> = Vec::new();
        r.push(owned("-fsdev"));
        r.push(fsdev);
        r.push(owned("-device"));
        r.push(dev);
        r
    }
}

/// The first 8 hex digits of the SHA-256 of `s`: always 8 characters.
pub fn md5_short(s: &str) -> (r: String)
    ensures
        r@ == short_hash(s@),
        r@.len() == 8,
{
    let d = sha256_digest(s.as_bytes());
    let mut p: Vec<u8> = Vec::new();
    p.push(d[0]);
    p.push(d[1]);
    p.push(d[2]);
    p.push(d[3]);
    assert(p@ =~= d@.take(4));
    proof {
        lemma_hex_lower_prefix(d@, 4);
        lemma_hex_lower_len(d@);
    }
    hex_encode(p.as_slice())
}

/// The share for a bind mount of `host_path`, given whether it exists:
/// refused when it does not, else tagged with [`bind_tag`].
pub fn bind_mount_for(host_path: &str, exists: bool, read_only: bool) -> (r: Result<FsShareConfig, QckerError>)
    ensures
        exists ==> (r matches Ok(c) && c.host_path@ == host_path@ && c.mount_tag@ == bind_tag(
            host_path@,
        ) && c.read_only == read_only),
        !exists ==> (r matches Err(QckerError::InvalidArgument(m)) && m@ == missing_host_text(
            host_path@,
        )),
{
    if !exists {
        let mut m = owned("Host path does not exist: ");
        push_str(&mut m, host_path);
        return Err(QckerError::InvalidArgument(m));
    }
    let mut tag = owned("mnt-");
    let h = md5_short(host_path);
    push_str(&mut tag, h.as_str());
    Ok(FsShareConfig::new(owned(host_path), tag, read_only))
}

/// The share for a bind mount of `host_path` into a container; refused when
/// nothing exists at `host_path` (which depends on the file system).
pub fn create_bind_mount_spec(host_path: &str, container_path: &str, read_only: bool) -> (r: Result<
    FsShareConfig,
    QckerError,
>)
    ensures
        r matches Ok(c) ==> c.host_path@ == host_path@ && c.mount_tag@ == bind_tag(host_path@)
            && c.read_only == read_only,
        r matches Err(e) ==> (e matches QckerError::InvalidArgument(m) && m@ == missing_host_text(
            host_path@,
        )),
{
    let exists = path_exists(host_path);
    bind_mount_for(host_path, exists, read_only)
}

} // verus!
