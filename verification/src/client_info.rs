//! What a request tells about the client: its address, platform and user agent.

use vstd::prelude::*;
use crate::responses::{bad_request, APIResponse, Status, message_response, BAD_REQUEST};
use crate::text::{join, joined, lowercase, same_text, to_lowercase, views};

verus! {

/// The kind of client that a session was opened from.
#[derive(Debug, Clone, Copy, PartialEq, Eq, Structural)]
pub enum Platform {
    Web,
    Desktop,
    Mobile,
    Unknown,
}

/// The platform that a name in lower case stands for.
pub open spec fn platform_named(name: Seq<char>) -> Platform {
    if name == "web"@ {
        Platform::Web
    } else if name == "desktop"@ {
        Platform::Desktop
    } else if name == "mobile"@ {
        Platform::Mobile
    } else {
        Platform::Unknown
    }
}

impl Platform {
    /// The platform that a name in lower case stands for: `web`, `desktop` or
    /// `mobile`; any other name is `Unknown`.
    pub fn from_lowercase(name: &str) -> (platform: Platform)
        ensures
            platform == platform_named(name@),
    {
        if same_text(name, "web") {
            Platform::Web
        } else if same_text(name, "desktop") {
            Platform::Desktop
        } else if same_text(name, "mobile") {
            Platform::Mobile
        } else {
            Platform::Unknown
        }
    }

    /// Reads a platform from its name, in any mix of upper and lower case. Never
    /// fails: a name that is not known gives `Unknown`.
    pub fn from_str(s: &str) -> (platform: Result<Platform, ()>)
        ensures
            platform == Ok::<Platform, ()>(platform_named(lowercase(s@))),
    {
        let lower = to_lowercase(s);
        Ok(Platform::from_lowercase(lower.as_str()))
    }

    /// The name of the platform, as it is stored with a session.
    pub open spec fn name(self) -> Seq<char> {
        match self {
            Platform::Web => "web"@,
            Platform::Desktop => "desktop"@,
            Platform::Mobile => "mobile"@,
            Platform::Unknown => "unknown"@,
        }
    }

    /// The name of the platform, as it is stored with a session.
    pub fn to_string(&self) -> (text: String)
        ensures
            text@ == self.name(),
    {
        match self {
            Platform::Web => "web".to_owned(),
            Platform::Desktop => "desktop".to_owned(),
            Platform::Mobile => "mobile".to_owned(),
            Platform::Unknown => "unknown".to_owned(),
        }
    }

    /// A stored name reads back as the platform it was written for.
    pub proof fn lemma_name_round_trip(self)
        ensures
            platform_named(self.name()) == self,
    {
        reveal_strlit("web");
        reveal_strlit("desktop");
        reveal_strlit("mobile");
        reveal_strlit("unknown");
        assert("web"@.len() == 3);
        assert("desktop"@.len() == 7);
        assert("mobile"@.len() == 6);
        assert("unknown"@[0] == 'u');
        assert("desktop"@[0] == 'd');
    }
}

/// An address of the Internet: four bytes, or sixteen.
#[derive(Debug, Clone, Copy, PartialEq, Eq)]
pub enum IpAddr {
    V4([u8; 4]),
    V6([u8; 16]),
}

/// A network: an address and the number of leading bits that name the network.
#[derive(Debug, Clone, Copy, PartialEq, Eq)]
pub struct IpNetwork {
    pub addr: IpAddr,
    pub prefix: u8,
}

impl IpNetwork {
    /// The network that holds one address only.
    pub open spec fn host(addr: IpAddr) -> IpNetwork {
        IpNetwork {
            addr,
            prefix: match addr {
                IpAddr::V4(_) => 32u8,
                IpAddr::V6(_) => 128u8,
            },
        }
    }

    /// The network that holds one address only: all 32 bits of a four-byte
    /// address, all 128 bits of a sixteen-byte one.
    pub fn from_addr(addr: IpAddr) -> (net: IpNetwork)
        ensures
            net == Self::host(addr),
    {
        match addr {
            IpAddr::V4(_) => IpNetwork { addr, prefix: 32 },
            IpAddr::V6(_) => IpNetwork { addr, prefix: 128 },
        }
    }
}

/// What is known of the client of a request.
#[derive(Debug)]
pub struct ClientInfo {
    pub ip: IpNetwork,
    pub platform: Platform,
    pub user_agent: String,
}

/// The platform that the platform cookie of a request stands for.
pub open spec fn cookie_platform(cookie: Option<Seq<char>>) -> Platform {
    match cookie {
        Some(value) => platform_named(lowercase(value)),
        None => Platform::Unknown,
    }
}

/// The address a request is taken to come from: the client address where the
/// request has one, else the address that a proxy reported, else the address of
/// the connection.
pub open spec fn first_address(
    client_ip: Option<IpAddr>,
    real_ip: Option<IpAddr>,
    remote_ip: Option<IpAddr>,
) -> Option<IpAddr> {
    if client_ip is Some {
        client_ip
    } else if real_ip is Some {
        real_ip
    } else {
        remote_ip
    }
}

/// The view of an optional text.
pub open spec fn cookie_view(cookie: Option<&str>) -> Option<Seq<char>> {
    match cookie {
        Some(value) => Some(value@),
        None => None,
    }
}

impl ClientInfo {
    /// Puts together what a request tells about its client. The platform comes
    /// from the platform cookie, the address is the first one known, as a
    /// network of that one address, and the user agent is the request's user
    /// agent headers joined by `", "`. A request without any address is refused
    /// as a bad request.
    pub fn from_request(
        platform_cookie: Option<&str>,
        client_ip: Option<IpAddr>,
        real_ip: Option<IpAddr>,
        remote_ip: Option<IpAddr>,
        user_agents: &Vec<String>,
    ) -> (info: Result<ClientInfo, APIResponse>)
        ensures
            match first_address(client_ip, real_ip, remote_ip) {
                Some(addr) => {
                    &&& info is Ok
                    &&& info->Ok_0.ip == IpNetwork::host(addr)
                    &&& info->Ok_0.platform == cookie_platform(cookie_view(platform_cookie))
                    &&& info->Ok_0.user_agent@ == joined(views(user_agents@), ", "@)
                },
                None => {
                    &&& info is Err
                    &&& info->Err_0@ == message_response(
                        Status { code: BAD_REQUEST },
                        "Could not identify ip of client."@,
                    )
                },
            },
    {
        let platform = match platform_cookie {
            Some(value) => {
                match Platform::from_str(value) {
                    Ok(p) => p,
                    Err(_) => Platform::Unknown,
                }
            },
            None => Platform::Unknown,
        };
        let addr = match client_ip {
            Some(a) => Some(a),
            None => match real_ip {
                Some(a) => Some(a),
                None => remote_ip,
            },
        };
        let addr = match addr {
            Some(a) => a,
            None => {
                return Err(bad_request("Could not identify ip of client."));
            },
        };
        let ip = IpNetwork::from_addr(addr);
        let user_agent = join(user_agents, ", ");
        Ok(ClientInfo { platform, ip, user_agent })
    }
}

} // verus!
