//! Device URIs: `scheme://authority/path?k=v&...`, parsed into a typed
//! descriptor of the backend device. The path names the device; each scheme
//! reads the parameters it needs and ignores the others.
//!
//! ```text
//! aio:///<abs-path>?blk_size=<u32>[&uuid=<uuid>]
//! uring:///<abs-path>?blk_size=<u32>[&uuid=<uuid>]   (served by aio)
//! iscsi://<host>:<port>/<iqn>/<lun>
//! nvmf://<host>:<port>/<nqn>
//! loopback:///<bdev-name>
//! bdev:///<bdev-name>                                (same as loopback)
//! ```

use vstd::prelude::*;
use crate::guid::{parse_uuid, uuid_of};
use crate::text::{last_value, lookup_value, pairs_view, parse_u32, parse_u32_spec, split, split_on, str_eq, views};

verus! {

#[verifier::external_type_specification]
#[verifier::external_body]
pub struct ExUrlParseError(url::ParseError);

/// Whether the url crate accepts a string as a URL.
pub uninterp spec fn url_parses(s: Seq<char>) -> bool;

/// The scheme of a URL, as the url crate reads it.
pub uninterp spec fn url_scheme_of(s: Seq<char>) -> Seq<char>;

/// The host of a URL, as the url crate reads it.
pub uninterp spec fn url_host_of(s: Seq<char>) -> Option<Seq<char>>;

/// The port given in a URL, as the url crate reads it.
pub uninterp spec fn url_port_of(s: Seq<char>) -> Option<u16>;

/// The path of a URL, as the url crate reads it.
pub uninterp spec fn url_path_of(s: Seq<char>) -> Seq<char>;

/// The decoded query pairs of a URL, in order, as the url crate reads them.
pub uninterp spec fn url_query_of(s: Seq<char>) -> Seq<(Seq<char>, Seq<char>)>;

/// The serialization of a URL by the url crate.
pub uninterp spec fn url_text_of(s: Seq<char>) -> Seq<char>;

/// The parts of a parsed URL that a device descriptor is made from.
#[derive(Debug)]
pub struct UrlParts {
    pub scheme: String,
    pub host: Option<String>,
    pub port: Option<u16>,
    pub path: String,
    pub query: Vec<(String, String)>,
    pub text: String,
}

/// The plain-value view of URL parts.
pub ghost struct UrlPartsView {
    pub scheme: Seq<char>,
    pub host: Option<Seq<char>>,
    pub port: Option<u16>,
    pub path: Seq<char>,
    pub query: Seq<(Seq<char>, Seq<char>)>,
    pub text: Seq<char>,
}

impl View for UrlParts {
    type V = UrlPartsView;

    open spec fn view(&self) -> UrlPartsView {
        UrlPartsView {
            scheme: self.scheme@,
            host: match self.host {
                Some(h) => Some(h@),
                None => None,
            },
            port: self.port,
            path: self.path@,
            query: pairs_view(self.query@),
            text: self.text@,
        }
    }
}

/// The parts of `s` as the url crate reads them.
pub open spec fn url_parts_of(s: Seq<char>) -> UrlPartsView {
    UrlPartsView {
        scheme: url_scheme_of(s),
        host: url_host_of(s),
        port: url_port_of(s),
        path: url_path_of(s),
        query: url_query_of(s),
        text: url_text_of(s),
    }
}

/// Relies on `url::Url::parse` and, on the URL it returns, `scheme`,
/// `host_str`, `port`, `path`, `query_pairs` and `as_str`: whether a string
/// parses, and each part read from it, depend on the string alone.
#[verifier::external_body]
fn split_url(uri: &str) -> (r: Result<UrlParts, url::ParseError>)
    ensures
        match r {
            Ok(p) => url_parses(uri@) && p@.scheme == url_scheme_of(uri@) && p@.host == url_host_of(uri@)
                && p@.port == url_port_of(uri@) && p@.path == url_path_of(uri@) && p@.query == url_query_of(
                uri@,
            ) && p@.text == url_text_of(uri@),
            Err(_) => !url_parses(uri@),
        },
{
    let u = url::Url::parse(uri)?;
    Ok(UrlParts {
        scheme: u.scheme().to_string(),
        host: u.host_str().map(String::from),
        port: u.port(),
        path: u.path().to_string(),
        query: u.query_pairs().into_owned().collect(),
        text: u.as_str().to_string(),
    })
}

/// The segments of a URL path: the pieces after the leading `/`, with none
/// for a bare `/`, and none for a path that does not start with `/`.
pub open spec fn segments_of(path: Seq<char>) -> Seq<Seq<char>> {
    if path.len() > 0 && path[0] == '/' {
        let p = split_on(path.drop_first(), '/');
        if p == seq![Seq::<char>::empty()] {
            Seq::empty()
        } else {
            p
        }
    } else {
        Seq::empty()
    }
}

/// The segments of a URL path.
pub fn segments(path: &str) -> (r: Vec<String>)
    ensures
        views(r@) == segments_of(path@),
{
    let n = path.unicode_len();
    if n > 0 && path.get_char(0) == '/' {
        let rest = path.substring_char(1, n);
        assert(rest@ =~= path@.drop_first());
        let p = split(rest, '/');
        if p.len() == 1 && p[0].as_str().unicode_len() == 0 {
            assert(p@[0]@ =~= Seq::<char>::empty());
            assert(views(p@)[0] == p@[0]@);
            assert(views(p@) =~= seq![Seq::<char>::empty()]);
            let r: Vec<String> = Vec::new();
            assert(views(r@) =~= Seq::<Seq<char>>::empty());
            r
        } else {
            assert(views(p@) != seq![Seq::<char>::empty()]) by {
                if views(p@) == seq![Seq::<char>::empty()] {
                    assert(views(p@).len() == p@.len());
                    assert(views(p@)[0] == p@[0]@);
                    assert(p@[0]@.len() == 0);
                }
            }
            p
        }
    } else {
        let r: Vec<String> = Vec::new();
        assert(views(r@) =~= Seq::<Seq<char>>::empty());
        r
    }
}

/// The default block size of a file-backed device.
pub const DEFAULT_BLK_SIZE: u32 = 512;

/// The default port of an NVMe over Fabrics target.
pub const DEFAULT_NVMF_PORT: u16 = 4420;

/// The default port of an iSCSI target.
pub const DEFAULT_ISCSI_PORT: u16 = 3260;

/// A device backed by a file or a kernel block device.
#[derive(Debug)]
pub struct Aio {
    pub name: String,
    pub alias: String,
    pub blk_size: u32,
    pub uuid: Option<u128>,
}

/// A device that is already known to the runtime, by its name.
#[derive(Debug)]
pub struct Loopback {
    pub name: String,
    pub alias: String,
    pub uuid: Option<u128>,
}

/// A LUN of an iSCSI target.
#[derive(Debug)]
pub struct Iscsi {
    pub name: String,
    pub alias: String,
    pub host: String,
    pub port: u16,
    pub iqn: String,
    pub lun: u32,
    pub uuid: Option<u128>,
}

/// A namespace of an NVMe over Fabrics target.
#[derive(Debug)]
pub struct Nvmf {
    pub name: String,
    pub alias: String,
    pub host: String,
    pub port: u16,
    pub subnqn: String,
    pub uuid: Option<u128>,
}

/// The typed descriptor of a backend device.
#[derive(Debug)]
pub enum Uri {
    Aio(Aio),
    Loopback(Loopback),
    Iscsi(Iscsi),
    Nvmf(Nvmf),
}

/// The plain-value view of a descriptor.
pub ghost enum UriView {
    Aio { name: Seq<char>, alias: Seq<char>, blk_size: u32, uuid: Option<u128> },
    Loopback { name: Seq<char>, alias: Seq<char>, uuid: Option<u128> },
    Iscsi { name: Seq<char>, alias: Seq<char>, host: Seq<char>, port: u16, iqn: Seq<char>, lun: u32, uuid: Option<u128> },
    Nvmf { name: Seq<char>, alias: Seq<char>, host: Seq<char>, port: u16, subnqn: Seq<char>, uuid: Option<u128> },
}

impl View for Uri {
    type V = UriView;

    open spec fn view(&self) -> UriView {
        match self {
            Uri::Aio(a) => UriView::Aio { name: a.name@, alias: a.alias@, blk_size: a.blk_size, uuid: a.uuid },
            Uri::Loopback(l) => UriView::Loopback { name: l.name@, alias: l.alias@, uuid: l.uuid },
            Uri::Iscsi(i) => UriView::Iscsi {
                name: i.name@,
                alias: i.alias@,
                host: i.host@,
                port: i.port,
                iqn: i.iqn@,
                lun: i.lun,
                uuid: i.uuid,
            },
            Uri::Nvmf(n) => UriView::Nvmf {
                name: n.name@,
                alias: n.alias@,
                host: n.host@,
                port: n.port,
                subnqn: n.subnqn@,
                uuid: n.uuid,
            },
        }
    }
}

/// Why a device URI was refused, or a device operation failed.
#[derive(Debug)]
pub enum NexusBdevError {
    UrlParseError { uri: String },
    UriSchemeUnsupported { scheme: String },
    UriInvalid { uri: String, message: String },
    IntParamParseError { uri: String, parameter: String },
    UuidParamParseError { uri: String },
    BdevExists { name: String },
    BdevNotFound { name: String },
    CancelBdev { name: String },
    DestroyBdev { name: String, errno: i32 },
}

/// The kind of a device error.
#[derive(Clone, Copy, Debug, PartialEq, Eq, Structural)]
pub enum BdevErrorKind {
    UrlParse,
    SchemeUnsupported,
    UriInvalid,
    IntParam,
    UuidParam,
    Exists,
    NotFound,
    Cancel,
    Destroy,
}

impl NexusBdevError {
    pub open spec fn kind_of(&self) -> BdevErrorKind {
        match self {
            NexusBdevError::UrlParseError { .. } => BdevErrorKind::UrlParse,
            NexusBdevError::UriSchemeUnsupported { .. } => BdevErrorKind::SchemeUnsupported,
            NexusBdevError::UriInvalid { .. } => BdevErrorKind::UriInvalid,
            NexusBdevError::IntParamParseError { .. } => BdevErrorKind::IntParam,
            NexusBdevError::UuidParamParseError { .. } => BdevErrorKind::UuidParam,
            NexusBdevError::BdevExists { .. } => BdevErrorKind::Exists,
            NexusBdevError::BdevNotFound { .. } => BdevErrorKind::NotFound,
            NexusBdevError::CancelBdev { .. } => BdevErrorKind::Cancel,
            NexusBdevError::DestroyBdev { .. } => BdevErrorKind::Destroy,
        }
    }

    /// The kind of the error.
    pub fn kind(&self) -> (r: BdevErrorKind)
        ensures
            r == self.kind_of(),
    {
        match self {
            NexusBdevError::UrlParseError { .. } => BdevErrorKind::UrlParse,
            NexusBdevError::UriSchemeUnsupported { .. } => BdevErrorKind::SchemeUnsupported,
            NexusBdevError::UriInvalid { .. } => BdevErrorKind::UriInvalid,
            NexusBdevError::IntParamParseError { .. } => BdevErrorKind::IntParam,
            NexusBdevError::UuidParamParseError { .. } => BdevErrorKind::UuidParam,
            NexusBdevError::BdevExists { .. } => BdevErrorKind::Exists,
            NexusBdevError::BdevNotFound { .. } => BdevErrorKind::NotFound,
            NexusBdevError::CancelBdev { .. } => BdevErrorKind::Cancel,
            NexusBdevError::DestroyBdev { .. } => BdevErrorKind::Destroy,
        }
    }
}

/// The outcome of parsing, as plain values.
pub open spec fn parsed(r: Result<Uri, NexusBdevError>) -> Result<UriView, BdevErrorKind> {
    match r {
        Ok(u) => Ok(u@),
        Err(e) => Err(e.kind_of()),
    }
}

/// What the optional `uuid` parameter gives: nothing, a value, or an error.
pub open spec fn uuid_param(q: Seq<(Seq<char>, Seq<char>)>) -> Result<Option<u128>, BdevErrorKind> {
    match last_value(q, "uuid"@) {
        None => Ok(None),
        Some(v) => match uuid_of(v) {
            Some(u) => Ok(Some(u)),
            None => Err(BdevErrorKind::UuidParam),
        },
    }
}

/// The text of a URL after `scheme://`.
pub open spec fn after_scheme(p: UrlPartsView) -> Seq<char> {
    let k = p.scheme.len() as int + 3;
    if k <= p.text.len() {
        p.text.subrange(k, p.text.len() as int)
    } else {
        p.text
    }
}

/// What a file-backed URI describes.
pub open spec fn aio_spec(p: UrlPartsView) -> Result<UriView, BdevErrorKind> {
    if segments_of(p.path).len() == 0 {
        Err(BdevErrorKind::UriInvalid)
    } else {
        let blk = match last_value(p.query, "blk_size"@) {
            None => Some(DEFAULT_BLK_SIZE),
            Some(v) => parse_u32_spec(v),
        };
        match blk {
            None => Err(BdevErrorKind::IntParam),
            Some(b) => match uuid_param(p.query) {
                Err(e) => Err(e),
                Ok(u) => Ok(UriView::Aio { name: p.path, alias: p.text, blk_size: b, uuid: u }),
            },
        }
    }
}

/// What a loopback URI describes.
pub open spec fn loopback_spec(p: UrlPartsView) -> Result<UriView, BdevErrorKind> {
    let s = segments_of(p.path);
    if s.len() != 1 {
        Err(BdevErrorKind::UriInvalid)
    } else {
        match uuid_param(p.query) {
            Err(e) => Err(e),
            Ok(u) => Ok(UriView::Loopback { name: s[0], alias: p.text, uuid: u }),
        }
    }
}

/// What an iSCSI URI describes.
pub open spec fn iscsi_spec(p: UrlPartsView) -> Result<UriView, BdevErrorKind> {
    let s = segments_of(p.path);
    if p.host is None || s.len() == 0 || s.len() > 2 {
        Err(BdevErrorKind::UriInvalid)
    } else {
        let lun = if s.len() == 2 { parse_u32_spec(s[1]) } else { Some(0u32) };
        match lun {
            None => Err(BdevErrorKind::IntParam),
            Some(l) => match uuid_param(p.query) {
                Err(e) => Err(e),
                Ok(u) => Ok(UriView::Iscsi {
                    name: after_scheme(p),
                    alias: p.text,
                    host: p.host->Some_0,
                    port: if p.port is Some { p.port->Some_0 } else { DEFAULT_ISCSI_PORT },
                    iqn: s[0],
                    lun: l,
                    uuid: u,
                }),
            },
        }
    }
}

/// What an NVMe over Fabrics URI describes.
pub open spec fn nvmf_spec(p: UrlPartsView) -> Result<UriView, BdevErrorKind> {
    let s = segments_of(p.path);
    if p.host is None || s.len() != 1 {
        Err(BdevErrorKind::UriInvalid)
    } else {
        match uuid_param(p.query) {
            Err(e) => Err(e),
            Ok(u) => Ok(UriView::Nvmf {
                name: after_scheme(p),
                alias: p.text,
                host: p.host->Some_0,
                port: if p.port is Some { p.port->Some_0 } else { DEFAULT_NVMF_PORT },
                subnqn: s[0],
                uuid: u,
            }),
        }
    }
}

/// What a URI with these parts describes, by its scheme.
pub open spec fn uri_spec(p: UrlPartsView) -> Result<UriView, BdevErrorKind> {
    if p.scheme == "aio"@ || p.scheme == "uring"@ {
        aio_spec(p)
    } else if p.scheme == "bdev"@ || p.scheme == "loopback"@ {
        loopback_spec(p)
    } else if p.scheme == "iscsi"@ {
        iscsi_spec(p)
    } else if p.scheme == "nvmf"@ {
        nvmf_spec(p)
    } else {
        Err(BdevErrorKind::SchemeUnsupported)
    }
}

fn invalid(p: &UrlParts, message: &str) -> (r: NexusBdevError)
    ensures
        r.kind_of() == BdevErrorKind::UriInvalid,
{
    NexusBdevError::UriInvalid { uri: p.text.clone(), message: String::from_str(message) }
}

fn read_uuid(p: &UrlParts) -> (r: Result<Option<u128>, NexusBdevError>)
    ensures
        match r {
            Ok(u) => uuid_param(p@.query) == Ok::<Option<u128>, BdevErrorKind>(u),
            Err(e) => uuid_param(p@.query) == Err::<Option<u128>, BdevErrorKind>(e.kind_of()),
        },
{
    match lookup_value(&p.query, "uuid") {
        None => Ok(None),
        Some(v) => match parse_uuid(v.as_str()) {
            Some(u) => Ok(Some(u)),
            None => Err(NexusBdevError::UuidParamParseError { uri: p.text.clone() }),
        },
    }
}

fn text_after_scheme(p: &UrlParts) -> (r: String)
    ensures
        r@ == after_scheme(p@),
{
    let k = p.scheme.as_str().unicode_len();
    let n = p.text.as_str().unicode_len();
    if k <= n && 3 <= n - k {
        String::from_str(p.text.as_str().substring_char(k + 3, n))
    } else {
        p.text.clone()
    }
}

/// The descriptor that a URI with these parts describes, by its scheme.
pub fn parse_parts(p: &UrlParts) -> (r: Result<Uri, NexusBdevError>)
    ensures
        parsed(r) == uri_spec(p@),
{
    let scheme = p.scheme.as_str();
    if str_eq(scheme, "aio") || str_eq(scheme, "uring") {
        // uring is served by aio until kernels that support it are common
        let segs = segments(p.path.as_str());
        if segs.len() == 0 {
            return Err(invalid(p, "no path segments"));
        }
        let blk_size = match lookup_value(&p.query, "blk_size") {
            None => DEFAULT_BLK_SIZE,
            Some(v) => match parse_u32(v.as_str()) {
                Some(b) => b,
                None => {
                    return Err(NexusBdevError::IntParamParseError {
                        uri: p.text.clone(),
                        parameter: String::from_str("blk_size"),
                    });
                },
            },
        };
        let uuid = match read_uuid(p) {
            Ok(u) => u,
            Err(e) => {
                return Err(e);
            },
        };
        Ok(Uri::Aio(Aio { name: p.path.clone(), alias: p.text.clone(), blk_size, uuid }))
    } else if str_eq(scheme, "bdev") || str_eq(scheme, "loopback") {
        let segs = segments(p.path.as_str());
        if segs.len() == 0 {
            return Err(invalid(p, "no path segments"));
        }
        if segs.len() > 1 {
            return Err(invalid(p, "too many path segments"));
        }
        let uuid = match read_uuid(p) {
            Ok(u) => u,
            Err(e) => {
                return Err(e);
            },
        };
        assert(views(segs@)[0] == segs@[0]@);
        Ok(Uri::Loopback(Loopback { name: segs[0].clone(), alias: p.text.clone(), uuid }))
    } else if str_eq(scheme, "iscsi") {
        let host = match &p.host {
            Some(h) => h.clone(),
            None => {
                return Err(invalid(p, "missing host"));
            },
        };
        let segs = segments(p.path.as_str());
        if segs.len() == 0 {
            return Err(invalid(p, "no path segments"));
        }
        if segs.len() > 2 {
            return Err(invalid(p, "too many path segments"));
        }
        assert(views(segs@)[0] == segs@[0]@);
        let lun = if segs.len() == 2 {
            assert(views(segs@)[1] == segs@[1]@);
            match parse_u32(segs[1].as_str()) {
                Some(l) => l,
                None => {
                    return Err(NexusBdevError::IntParamParseError {
                        uri: p.text.clone(),
                        parameter: String::from_str("lun"),
                    });
                },
            }
        } else {
            0
        };
        let uuid = match read_uuid(p) {
            Ok(u) => u,
            Err(e) => {
                return Err(e);
            },
        };
        let port = match p.port {
            Some(port) => port,
            None => DEFAULT_ISCSI_PORT,
        };
        Ok(Uri::Iscsi(Iscsi {
            name: text_after_scheme(p),
            alias: p.text.clone(),
            host,
            port,
            iqn: segs[0].clone(),
            lun,
            uuid,
        }))
    } else if str_eq(scheme, "nvmf") {
        let host = match &p.host {
            Some(h) => h.clone(),
            None => {
                return Err(invalid(p, "missing host"));
            },
        };
        let segs = segments(p.path.as_str());
        if segs.len() == 0 {
            return Err(invalid(p, "no path segments"));
        }
        if segs.len() > 1 {
            return Err(invalid(p, "too many path segments"));
        }
        assert(views(segs@)[0] == segs@[0]@);
        let uuid = match read_uuid(p) {
            Ok(u) => u,
            Err(e) => {
                return Err(e);
            },
        };
        let port = match p.port {
            Some(port) => port,
            None => DEFAULT_NVMF_PORT,
        };
        Ok(Uri::Nvmf(Nvmf {
            name: text_after_scheme(p),
            alias: p.text.clone(),
            host,
            port,
            subnqn: segs[0].clone(),
            uuid,
        }))
    } else {
        Err(NexusBdevError::UriSchemeUnsupported { scheme: p.scheme.clone() })
    }
}

impl Uri {
    /// Parse a device URI into the descriptor of its device.
    pub fn parse(uri: &str) -> (r: Result<Uri, NexusBdevError>)
        ensures
            !url_parses(uri@) ==> parsed(r) == Err::<UriView, BdevErrorKind>(BdevErrorKind::UrlParse),
            url_parses(uri@) ==> parsed(r) == uri_spec(url_parts_of(uri@)),
    {
        match split_url(uri) {
            Ok(parts) => parse_parts(&parts),
            Err(_) => Err(NexusBdevError::UrlParseError { uri: String::from_str(uri) }),
        }
    }

    /// The name of the device.
    pub fn get_name(&self) -> (r: String)
        ensures
            r@ == match self@ {
                UriView::Aio { name, .. } => name,
                UriView::Loopback { name, .. } => name,
                UriView::Iscsi { name, .. } => name,
                UriView::Nvmf { name, .. } => name,
            },
    {
        match self {
            Uri::Aio(a) => a.name.clone(),
            Uri::Loopback(l) => l.name.clone(),
            Uri::Iscsi(i) => i.name.clone(),
            Uri::Nvmf(n) => n.name.clone(),
        }
    }
}

} // verus!
