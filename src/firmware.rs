use crate::json::{Json, field, text_field};
use crate::text::{decimal, to_decimal};
use vstd::prelude::*;

verus! {

/// Failure of one update.
#[derive(Debug, Clone, PartialEq, Eq)]
pub enum FirmwareError {
    /// The artifact could not be fetched.
    Download(String),
    /// The installer failed.
    Fwup(String),
    /// The update event did not describe an update.
    InvalidMessage(String),
    /// The local file system failed.
    Io(String),
}

/// The firmware that an update installs.
#[derive(Debug, Clone, PartialEq, Eq)]
pub struct FirmwareMeta {
    pub uuid: String,
    pub version: String,
    pub platform: String,
    pub architecture: String,
    pub product: String,
}

/// An update pushed by the server.
#[derive(Debug, Clone, PartialEq, Eq)]
pub struct UpdateInfo {
    pub firmware_url: String,
    pub firmware_meta: FirmwareMeta,
}

/// The five string members of a firmware description.
pub open spec fn meta_complete(m: Json) -> bool {
    &&& text_field(m, "uuid"@) is Some
    &&& text_field(m, "version"@) is Some
    &&& text_field(m, "platform"@) is Some
    &&& text_field(m, "architecture"@) is Some
    &&& text_field(m, "product"@) is Some
}

/// A payload that describes an update: a URL and a complete firmware description.
pub open spec fn update_complete(p: Json) -> bool {
    &&& text_field(p, "firmware_url"@) is Some
    &&& field(p, "firmware_meta"@) matches Some(m) && meta_complete(m)
}

/// `u` holds what the payload `p` describes.
pub open spec fn update_matches(u: UpdateInfo, p: Json) -> bool {
    let m = field(p, "firmware_meta"@)->Some_0;
    &&& text_field(p, "firmware_url"@) == Some(u.firmware_url@)
    &&& text_field(m, "uuid"@) == Some(u.firmware_meta.uuid@)
    &&& text_field(m, "version"@) == Some(u.firmware_meta.version@)
    &&& text_field(m, "platform"@) == Some(u.firmware_meta.platform@)
    &&& text_field(m, "architecture"@) == Some(u.firmware_meta.architecture@)
    &&& text_field(m, "product"@) == Some(u.firmware_meta.product@)
}

fn text_member(v: &Json, key: &str) -> (r: Result<String, FirmwareError>)
    ensures
        r matches Ok(s) ==> text_field(*v, key@) == Some(s@),
        r is Err ==> text_field(*v, key@) is None,
        r is Err ==> r->Err_0 is InvalidMessage,
{
    match v.get(key) {
        Some(f) => match f.as_str() {
            Some(s) => Ok(s.clone()),
            None => {
                let mut m = "expected a string for `".to_owned();
                m.append(key);
                m.append("`");
                Err(FirmwareError::InvalidMessage(m))
            },
        },
        None => {
            let mut m = "missing field `".to_owned();
            m.append(key);
            m.append("`");
            Err(FirmwareError::InvalidMessage(m))
        },
    }
}

impl FirmwareMeta {
    /// A copy of the description.
    pub fn duplicate(&self) -> (r: FirmwareMeta)
        ensures
            r == *self,
    {
        FirmwareMeta {
            uuid: self.uuid.clone(),
            version: self.version.clone(),
            platform: self.platform.clone(),
            architecture: self.architecture.clone(),
            product: self.product.clone(),
        }
    }
}

impl UpdateInfo {
    /// A copy of the update.
    pub fn duplicate(&self) -> (r: UpdateInfo)
        ensures
            r == *self,
    {
        UpdateInfo { firmware_url: self.firmware_url.clone(), firmware_meta: self.firmware_meta.duplicate() }
    }

    /// Reads an update from the payload of an `update` event.
    pub fn from_payload(payload: &Json) -> (r: Result<UpdateInfo, FirmwareError>)
        ensures
            r is Ok <==> update_complete(*payload),
            r matches Ok(u) ==> update_matches(u, *payload),
            r is Err ==> r->Err_0 is InvalidMessage,
    {
        let firmware_url = text_member(payload, "firmware_url")?;
        let meta = match payload.get("firmware_meta") {
            Some(m) => m,
            None => {
                return Err(FirmwareError::InvalidMessage("missing field `firmware_meta`".to_owned()));
            },
        };
        let uuid = text_member(meta, "uuid")?;
        let version = text_member(meta, "version")?;
        let platform = text_member(meta, "platform")?;
        let architecture = text_member(meta, "architecture")?;
        let product = text_member(meta, "product")?;
        Ok(
            UpdateInfo {
                firmware_url,
                firmware_meta: FirmwareMeta { uuid, version, platform, architecture, product },
            },
        )
    }
}

/// Percent of a download: `min(100, floor(downloaded * 100 / total))` for a known
/// positive total, else 0.
pub open spec fn percent_of(downloaded: nat, total: Option<u64>) -> nat {
    match total {
        Some(t) if t > 0 => if downloaded * 100 / (t as nat) >= 100 {
            100
        } else {
            downloaded * 100 / (t as nat)
        },
        _ => 0,
    }
}

/// Percent of a download of `downloaded` bytes out of `total`.
pub fn progress_percent(downloaded: u64, total: Option<u64>) -> (r: u8)
    ensures
        r as nat == percent_of(downloaded as nat, total),
        r <= 100,
{
    match total {
        Some(t) if t > 0 => {
            let p: u128 = (downloaded as u128) * 100 / (t as u128);
            if p >= 100 {
                100
            } else {
                p as u8
            }
        },
        _ => 0,
    }
}

/// The installer's arguments: `-a -d <devpath> -i <path> -t <task>`.
pub open spec fn fwup_args_of(devpath: Seq<char>, path: Seq<char>, task: Seq<char>) -> Seq<Seq<char>> {
    seq!["-a"@, "-d"@, devpath, "-i"@, path, "-t"@, task]
}

/// The arguments that apply the image at `firmware_path` to `devpath` with `task`.
pub fn fwup_args(devpath: &str, firmware_path: &str, task: &str) -> (r: Vec<String>)
    ensures
        r@.map_values(|s: String| s@) == fwup_args_of(devpath@, firmware_path@, task@),
{
    let mut v: Vec<String> = Vec::new();
    v.push("-a".to_owned());
    v.push("-d".to_owned());
    v.push(devpath.to_owned());
    v.push("-i".to_owned());
    v.push(firmware_path.to_owned());
    v.push("-t".to_owned());
    v.push(task.to_owned());
    assert(v@.map_values(|s: String| s@) =~= fwup_args_of(devpath@, firmware_path@, task@));
    v
}

/// Whether an HTTP status is a success.
pub open spec fn status_success(code: u16) -> bool {
    200 <= code < 300
}

/// Accepts a success status; any other is a download error naming the code.
pub fn check_download_status(code: u16) -> (r: Result<(), FirmwareError>)
    ensures
        r is Ok <==> status_success(code),
        r matches Err(FirmwareError::Download(m)) ==> m@ == "HTTP "@ + decimal(code as nat),
        r is Err ==> r->Err_0 is Download,
{
    if 200 <= code && code < 300 {
        Ok(())
    } else {
        let mut m = "HTTP ".to_owned();
        m.append(to_decimal(code as u64).as_str());
        Err(FirmwareError::Download(m))
    }
}

} // verus!
