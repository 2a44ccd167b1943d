//! The data records the configuration logic works on, with their
//! mathematical views.

use vstd::prelude::*;

verus! {

/// A named tunnel service, written as one `[name]` section of the
/// configuration document.
#[derive(Clone, Debug)]
pub struct Provider {
    pub name: String,
    pub is_client: bool,
    pub accept_port: String,
    pub connect_host: String,
    pub connect_port: String,
}

/// Mathematical image of a `Provider`.
pub struct ProviderV {
    pub name: Seq<char>,
    pub is_client: bool,
    pub accept_port: Seq<char>,
    pub connect_host: Seq<char>,
    pub connect_port: Seq<char>,
}

impl View for Provider {
    type V = ProviderV;

    open spec fn view(&self) -> ProviderV {
        ProviderV {
            name: self.name@,
            is_client: self.is_client,
            accept_port: self.accept_port@,
            connect_host: self.connect_host@,
            connect_port: self.connect_port@,
        }
    }
}

impl DeepView for Provider {
    type V = ProviderV;

    open spec fn deep_view(&self) -> ProviderV {
        self.view()
    }
}

/// The directives written once at the top of a generated document.
/// An empty path stands for an absent optional directive.
#[derive(Clone, Debug)]
pub struct GlobalSettings {
    pub foreground: bool,
    pub pid_file: String,
    pub cert_path: String,
    pub key_path: String,
    pub ca_path: String,
}

/// Mathematical image of `GlobalSettings`.
pub struct GlobalSettingsV {
    pub foreground: bool,
    pub pid_file: Seq<char>,
    pub cert_path: Seq<char>,
    pub key_path: Seq<char>,
    pub ca_path: Seq<char>,
}

impl View for GlobalSettings {
    type V = GlobalSettingsV;

    open spec fn view(&self) -> GlobalSettingsV {
        GlobalSettingsV {
            foreground: self.foreground,
            pid_file: self.pid_file@,
            cert_path: self.cert_path@,
            key_path: self.key_path@,
            ca_path: self.ca_path@,
        }
    }
}

impl DeepView for GlobalSettings {
    type V = GlobalSettingsV;

    open spec fn deep_view(&self) -> GlobalSettingsV {
        self.view()
    }
}

/// One active tunnel connection, as reported by the process listing.
#[derive(Clone, Debug)]
pub struct Connection {
    pub service_name: String,
    pub local_address: String,
    pub remote_address: String,
    pub bytes_sent: u64,
    pub bytes_received: u64,
}

/// Mathematical image of a `Connection`.
pub struct ConnectionV {
    pub service_name: Seq<char>,
    pub local_address: Seq<char>,
    pub remote_address: Seq<char>,
    pub bytes_sent: u64,
    pub bytes_received: u64,
}

impl View for Connection {
    type V = ConnectionV;

    open spec fn view(&self) -> ConnectionV {
        ConnectionV {
            service_name: self.service_name@,
            local_address: self.local_address@,
            remote_address: self.remote_address@,
            bytes_sent: self.bytes_sent,
            bytes_received: self.bytes_received,
        }
    }
}

impl DeepView for Connection {
    type V = ConnectionV;

    open spec fn deep_view(&self) -> ConnectionV {
        self.view()
    }
}

/// A structural failure of a section edit.
#[derive(Clone, Copy, Debug, PartialEq, Eq, Structural)]
pub enum EditError {
    /// Appending a section whose exact header line already exists.
    DuplicateSection,
    /// Removing a section no line of which is the header.
    SectionNotFound,
    /// A blank or whitespace-only section name.
    InvalidArgument,
}

} // verus!
