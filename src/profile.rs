use vstd::prelude::*;


verus! {

/// Screen width announced to the server, in pixels.
pub const SCREEN_WIDTH: u16 = 1920;

/// Screen height announced to the server, in pixels.
pub const SCREEN_HEIGHT: u16 = 1080;

/// Name under which the client presents itself to the server.
pub const CLIENT_NAME: &'static str = "freerdp";

#[verifier::external_type_specification]
pub struct ExKeyboardLayout(rdp::core::gcc::KeyboardLayout);

#[verifier::external_type_specification]
#[verifier::external_body]
pub struct ExConnector(rdp::core::client::Connector);

/// The screen size, width then height, that a connection builder holds.
pub uninterp spec fn connector_screen(c: rdp::core::client::Connector) -> (u16, u16);

/// The domain, user name and password that a connection builder holds.
pub uninterp spec fn connector_credentials(c: rdp::core::client::Connector) -> (
    Seq<char>,
    Seq<char>,
    Seq<char>,
);

/// The flags that a connection builder holds: restricted admin mode,
/// automatic logon, blank credentials, certificate check and network-level
/// authentication, in that order.
pub uninterp spec fn connector_flags(c: rdp::core::client::Connector) -> (
    bool,
    bool,
    bool,
    bool,
    bool,
);

/// The keyboard layout that a connection builder holds.
pub uninterp spec fn connector_layout(
    c: rdp::core::client::Connector,
) -> rdp::core::gcc::KeyboardLayout;

/// The client name that a connection builder holds.
pub uninterp spec fn connector_name(c: rdp::core::client::Connector) -> Seq<char>;

/// Whether a connection builder holds a password hash, which makes the engine
/// authenticate with the hash instead of the password.
pub uninterp spec fn connector_password_hash_set(c: rdp::core::client::Connector) -> bool;

/// Relies on rdp's `Connector::new`: a builder holding the engine's defaults,
/// 800 by 600 pixels, empty credentials, no password hash, a US keyboard, the
/// client name `rdp-rs`, network-level authentication on and the other flags
/// off.
pub assume_specification[ rdp::core::client::Connector::new ]() -> (r: rdp::core::client::Connector)
    ensures
        connector_screen(r) == (800u16, 600u16),
        connector_credentials(r) == (Seq::<char>::empty(), Seq::<char>::empty(), Seq::<char>::empty()),
        connector_flags(r) == (false, false, false, false, true),
        connector_layout(r) == rdp::core::gcc::KeyboardLayout::US,
        connector_name(r) == "rdp-rs"@,
        !connector_password_hash_set(r),
;

/// Relies on rdp's `Connector::screen`: sets the screen size; the rest of the
/// configuration is kept.
pub assume_specification[ rdp::core::client::Connector::screen ](
    c: rdp::core::client::Connector,
    width: u16,
    height: u16,
) -> (r: rdp::core::client::Connector)
    ensures
        connector_screen(r) == (width, height),
        connector_credentials(r) == connector_credentials(c),
        connector_flags(r) == connector_flags(c),
        connector_layout(r) == connector_layout(c),
        connector_name(r) == connector_name(c),
        connector_password_hash_set(r) == connector_password_hash_set(c),
;

/// Relies on rdp's `Connector::credentials`: sets domain, user name and password;
/// the rest of the configuration is kept.
pub assume_specification[ rdp::core::client::Connector::credentials ](
    c: rdp::core::client::Connector,
    domain: String,
    username: String,
    password: String,
) -> (r: rdp::core::client::Connector)
    ensures
        connector_credentials(r) == (domain@, username@, password@),
        connector_screen(r) == connector_screen(c),
        connector_flags(r) == connector_flags(c),
        connector_layout(r) == connector_layout(c),
        connector_name(r) == connector_name(c),
        connector_password_hash_set(r) == connector_password_hash_set(c),
;

/// Relies on rdp's `Connector::set_restricted_admin_mode`: sets the restricted admin mode flag;
/// the rest of the configuration is kept.
pub assume_specification[ rdp::core::client::Connector::set_restricted_admin_mode ](
    c: rdp::core::client::Connector,
    state: bool,
) -> (r: rdp::core::client::Connector)
    ensures
        connector_flags(r) == (
            state,
            connector_flags(c).1,
            connector_flags(c).2,
            connector_flags(c).3,
            connector_flags(c).4,
        ),
        connector_screen(r) == connector_screen(c),
        connector_credentials(r) == connector_credentials(c),
        connector_layout(r) == connector_layout(c),
        connector_name(r) == connector_name(c),
        connector_password_hash_set(r) == connector_password_hash_set(c),
;

/// Relies on rdp's `Connector::layout`: sets the keyboard layout; the rest of the
/// configuration is kept.
pub assume_specification[ rdp::core::client::Connector::layout ](
    c: rdp::core::client::Connector,
    layout: rdp::core::gcc::KeyboardLayout,
) -> (r: rdp::core::client::Connector)
    ensures
        connector_layout(r) == layout,
        connector_screen(r) == connector_screen(c),
        connector_credentials(r) == connector_credentials(c),
        connector_flags(r) == connector_flags(c),
        connector_name(r) == connector_name(c),
        connector_password_hash_set(r) == connector_password_hash_set(c),
;

/// Relies on rdp's `Connector::auto_logon`: sets the automatic logon flag;
/// the rest of the configuration is kept.
pub assume_specification[ rdp::core::client::Connector::auto_logon ](
    c: rdp::core::client::Connector,
    auto_logon: bool,
) -> (r: rdp::core::client::Connector)
    ensures
        connector_flags(r) == (
            connector_flags(c).0,
            auto_logon,
            connector_flags(c).2,
            connector_flags(c).3,
            connector_flags(c).4,
        ),
        connector_screen(r) == connector_screen(c),
        connector_credentials(r) == connector_credentials(c),
        connector_layout(r) == connector_layout(c),
        connector_name(r) == connector_name(c),
        connector_password_hash_set(r) == connector_password_hash_set(c),
;

/// Relies on rdp's `Connector::blank_creds`: sets the blank credentials flag;
/// the rest of the configuration is kept.
pub assume_specification[ rdp::core::client::Connector::blank_creds ](
    c: rdp::core::client::Connector,
    blank_creds: bool,
) -> (r: rdp::core::client::Connector)
    ensures
        connector_flags(r) == (
            connector_flags(c).0,
            connector_flags(c).1,
            blank_creds,
            connector_flags(c).3,
            connector_flags(c).4,
        ),
        connector_screen(r) == connector_screen(c),
        connector_credentials(r) == connector_credentials(c),
        connector_layout(r) == connector_layout(c),
        connector_name(r) == connector_name(c),
        connector_password_hash_set(r) == connector_password_hash_set(c),
;

/// Relies on rdp's `Connector::check_certificate`: sets whether the server certificate is checked;
/// the rest of the configuration is kept.
pub assume_specification[ rdp::core::client::Connector::check_certificate ](
    c: rdp::core::client::Connector,
    check_certificate: bool,
) -> (r: rdp::core::client::Connector)
    ensures
        connector_flags(r) == (
            connector_flags(c).0,
            connector_flags(c).1,
            connector_flags(c).2,
            check_certificate,
            connector_flags(c).4,
        ),
        connector_screen(r) == connector_screen(c),
        connector_credentials(r) == connector_credentials(c),
        connector_layout(r) == connector_layout(c),
        connector_name(r) == connector_name(c),
        connector_password_hash_set(r) == connector_password_hash_set(c),
;

/// Relies on rdp's `Connector::name`: sets the client name sent to the server;
/// the rest of the configuration is kept.
pub assume_specification[ rdp::core::client::Connector::name ](
    c: rdp::core::client::Connector,
    name: String,
) -> (r: rdp::core::client::Connector)
    ensures
        connector_name(r) == name@,
        connector_screen(r) == connector_screen(c),
        connector_credentials(r) == connector_credentials(c),
        connector_flags(r) == connector_flags(c),
        connector_layout(r) == connector_layout(c),
        connector_password_hash_set(r) == connector_password_hash_set(c),
;

/// Relies on rdp's `Connector::use_nla`: sets whether network-level authentication is offered;
/// the rest of the configuration is kept.
pub assume_specification[ rdp::core::client::Connector::use_nla ](
    c: rdp::core::client::Connector,
    use_nla: bool,
) -> (r: rdp::core::client::Connector)
    ensures
        connector_flags(r) == (
            connector_flags(c).0,
            connector_flags(c).1,
            connector_flags(c).2,
            connector_flags(c).3,
            use_nla,
        ),
        connector_screen(r) == connector_screen(c),
        connector_credentials(r) == connector_credentials(c),
        connector_layout(r) == connector_layout(c),
        connector_name(r) == connector_name(c),
        connector_password_hash_set(r) == connector_password_hash_set(c),
;

/// The fixed client configuration of one probe: everything but the
/// credentials is a constant of the probe.
pub struct ConnectionProfile {
    pub width: u16,
    pub height: u16,
    pub domain: String,
    pub username: String,
    pub password: String,
    pub name: String,
    pub restricted_admin_mode: bool,
    pub layout: rdp::core::gcc::KeyboardLayout,
    pub auto_logon: bool,
    pub blank_creds: bool,
    pub check_certificate: bool,
    pub use_nla: bool,
}

impl ConnectionProfile {
    /// The profile of a probe that logs on as `username` with `password`:
    /// 1920 by 1080 pixels, an empty domain, the client name `freerdp`, a US
    /// keyboard, restricted admin mode, automatic logon and blank
    /// credentials off, the server certificate not checked, and
    /// network-level authentication on.
    pub fn new(username: &str, password: &str) -> (p: ConnectionProfile)
        ensures
            p.width == SCREEN_WIDTH,
            p.height == SCREEN_HEIGHT,
            p.domain@ == Seq::<char>::empty(),
            p.username@ == username@,
            p.password@ == password@,
            p.name@ == CLIENT_NAME@,
            !p.restricted_admin_mode,
            p.layout == rdp::core::gcc::KeyboardLayout::US,
            !p.auto_logon,
            !p.blank_creds,
            !p.check_certificate,
            p.use_nla,
    {
        ConnectionProfile {
            width: SCREEN_WIDTH,
            height: SCREEN_HEIGHT,
            domain: String::new(),
            username: username.to_owned(),
            password: password.to_owned(),
            name: CLIENT_NAME.to_owned(),
            restricted_admin_mode: false,
            layout: rdp::core::gcc::KeyboardLayout::US,
            auto_logon: false,
            blank_creds: false,
            check_certificate: false,
            use_nla: true,
        }
    }

    /// The protocol engine's connection builder, configured with every field
    /// of this profile and with no password hash.
    pub fn into_connector(self) -> (c: rdp::core::client::Connector)
        ensures
            connector_screen(c) == (self.width, self.height),
            connector_credentials(c) == (self.domain@, self.username@, self.password@),
            connector_flags(c) == (
                self.restricted_admin_mode,
                self.auto_logon,
                self.blank_creds,
                self.check_certificate,
                self.use_nla,
            ),
            connector_layout(c) == self.layout,
            connector_name(c) == self.name@,
            !connector_password_hash_set(c),
    {
        rdp::core::client::Connector::new()
            .screen(self.width, self.height)
            .credentials(self.domain, self.username, self.password)
            .set_restricted_admin_mode(self.restricted_admin_mode)
            .auto_logon(self.auto_logon)
            .blank_creds(self.blank_creds)
            .layout(self.layout)
            .check_certificate(self.check_certificate)
            .name(self.name)
            .use_nla(self.use_nla)
    }
}

} // verus!
