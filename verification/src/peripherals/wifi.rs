//! The Wi-Fi network the wearer entered, and the connection's progress.

use vstd::prelude::*;
use vstd::string::StringSliceAdditionalSpecFns;
use vstd::utf8::encode_utf8;

verus! {

/// Progress of the Wi-Fi connection.
#[derive(Clone, Copy, Debug, PartialEq, Eq, Structural)]
pub enum WifiState {
    Disconnected,
    Connecting,
    Connected,
    Error,
}

/// The entered network name and password.
pub struct WifiConfigView {
    pub ssid: Seq<char>,
    pub password: Seq<char>,
}

/// A network name and password held for the current session only.
pub struct WifiConfig {
    ssid: String,
    password: String,
}

impl View for WifiConfig {
    type V = WifiConfigView;

    closed spec fn view(&self) -> WifiConfigView {
        WifiConfigView { ssid: self.ssid@, password: self.password@ }
    }
}

impl WifiConfig {
    /// No network name and no password.
    pub fn new() -> (r: Self)
        ensures
            r@.ssid == Seq::<char>::empty(),
            r@.password == Seq::<char>::empty(),
    {
        WifiConfig { ssid: String::new(), password: String::new() }
    }

    /// Sets the network name.
    pub fn set_ssid(&mut self, value: &str)
        ensures
            final(self)@ == (WifiConfigView { ssid: value@, ..old(self)@ }),
    {
        self.ssid = value.to_owned();
    }

    /// Sets the password; an empty one means an open network.
    pub fn set_password(&mut self, value: &str)
        ensures
            final(self)@ == (WifiConfigView { password: value@, ..old(self)@ }),
    {
        self.password = value.to_owned();
    }

    /// The network name.
    pub fn ssid_str(&self) -> (r: &str)
        ensures
            r@ == self@.ssid,
    {
        self.ssid.as_str()
    }

    /// The password.
    pub fn password_str(&self) -> (r: &str)
        ensures
            r@ == self@.password,
    {
        self.password.as_str()
    }

    /// The password's length in bytes; zero for an open network.
    pub fn pass_len(&self) -> (r: usize)
        ensures
            r == encode_utf8(self@.password).len() as usize,
    {
        self.password.as_str().len()
    }

    /// Whether a connection can be attempted: a network name exists.
    pub fn is_ready(&self) -> (r: bool)
        ensures
            r == (self@.ssid.len() > 0),
    {
        !self.ssid.as_str().is_empty()
    }
}

} // verus!
