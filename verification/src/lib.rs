use vstd::prelude::*;
use vstd::string::*;

pub mod bus;
pub mod errors;
pub mod events;
pub mod pipeline;
pub mod router;

verus! {

/// Command-line configuration of the serving process.
#[derive(Debug, Clone, PartialEq)]
pub struct Args {
    pub port: u16,
    pub cert_path: String,
}

impl Default for Args {
    /// The port and certificate directory used when none are given.
    fn default() -> (r: Args)
        ensures
            r.port == 8080,
            r.cert_path@ == "./.certs"@,
    {
        Args { port: 8080, cert_path: "./.certs".to_owned() }
    }
}

/// The per-request context: the stable session identifier of the caller,
/// as resolved by the surrounding web layer.
#[derive(Debug, Clone, PartialEq)]
pub struct AppContext {
    pub device_id: String,
}

impl AppContext {
    pub fn new(device_id: String) -> (r: AppContext)
        ensures
            r.device_id@ == device_id@,
    {
        AppContext { device_id }
    }
}

/// Filesystem path under which a session's audio artifact is stored.
pub fn audio_path(device_id: &str, name: &str) -> (r: String)
    ensures
        r@ == "/tmp/ava-bot/audio/"@ + device_id@ + "/"@ + name@ + ".mp3"@,
{
    let mut s = "/tmp/ava-bot/audio/".to_owned();
    s.append(device_id);
    s.append("/");
    s.append(name);
    s.append(".mp3");
    s
}

/// URL path under which a stored audio artifact of a session can be fetched.
pub fn audio_url(device_id: &str, name: &str) -> (r: String)
    ensures
        r@ == "/assets/audio/"@ + device_id@ + "/"@ + name@ + ".mp3"@,
{
    let mut s = "/assets/audio/".to_owned();
    s.append(device_id);
    s.append("/");
    s.append(name);
    s.append(".mp3");
    s
}

/// Filesystem path under which a session's image artifact is stored.
pub fn image_path(device_id: &str, name: &str) -> (r: String)
    ensures
        r@ == "/tmp/ava-bot/image/"@ + device_id@ + "/"@ + name@ + ".png"@,
{
    let mut s = "/tmp/ava-bot/image/".to_owned();
    s.append(device_id);
    s.append("/");
    s.append(name);
    s.append(".png");
    s
}

/// URL path under which a stored image artifact of a session can be fetched.
pub fn image_url(device_id: &str, name: &str) -> (r: String)
    ensures
        r@ == "/assets/image/"@ + device_id@ + "/"@ + name@ + ".png"@,
{
    let mut s = "/assets/image/".to_owned();
    s.append(device_id);
    s.append("/");
    s.append(name);
    s.append(".png");
    s
}

} // verus!
