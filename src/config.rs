//! Function declarations and the gateway's configuration.
use vstd::prelude::*;

use crate::envelope::prefixed;

verus! {

/// Relies on `uuid::Uuid::new_v4`: a random version-4 identity, as its 128 bits.
#[verifier::external_body]
fn new_identity() -> u128 {
    uuid::Uuid::new_v4().as_u128()
}

/// What `str::to_uppercase` gives for a text.
pub uninterp spec fn upper_of(s: Seq<char>) -> Seq<char>;

/// Relies on `str::to_uppercase`, whose result depends on the characters alone.
#[verifier::external_body]
fn uppercase(s: &str) -> (r: String)
    ensures
        r@ == upper_of(s@),
{
    s.to_uppercase()
}

/// A character that may stand in an HTTP method.
pub open spec fn method_char(c: char) -> bool {
    let n = c as u32;
    ||| c == '!' || c == '*' || c == '+' || c == '-' || c == '.'
    ||| ('0' as u32) <= n <= ('9' as u32)
    ||| ('A' as u32) <= n <= ('Z' as u32)
    ||| c == '^' || c == '_' || c == '`'
    ||| ('a' as u32) <= n <= ('z' as u32)
    ||| c == '|' || c == '~'
}

/// A text that `actix_web::http::Method::from_bytes` accepts as a method:
/// not empty, and made of method characters.
pub open spec fn method_token(s: Seq<char>) -> bool {
    s.len() > 0 && forall|i: int| 0 <= i < s.len() ==> #[trigger] method_char(s[i])
}

/// Relies on `actix_web::http::Method::from_bytes`, which accepts a method
/// when it is not empty and every byte is in its table of method characters
/// (any byte of a non-ASCII character is not).
#[verifier::external_body]
fn is_method_token(s: &str) -> (r: bool)
    ensures
        r == method_token(s@),
{
    actix_web::http::Method::from_bytes(s.as_bytes()).is_ok()
}

#[derive(Debug)]
pub struct NetworkingConfig {
    pub host: String,
    pub port: String,
}

/// The declaration of one function.
#[derive(Debug)]
pub struct FunctionConfig {
    /// HTTP method that the function handles.
    pub method: String,
    /// Route that the function is bound to.
    pub route: String,
    /// Path to the script, executable or module that defines the function.
    pub handler: String,
    /// Program that runs the handler, when the handler cannot run by itself.
    pub cmd: Option<String>,
    /// Runtime of the function: `unix_socket` or `wasm`.
    pub runtime: String,
    /// Identity of this declaration, the key of its cached instance.
    pub id: u128,
}

/// The program and arguments that launch a handler.
pub open spec fn command_of(cmd: Option<Seq<char>>, handler: Seq<char>) -> Seq<Seq<char>> {
    match cmd {
        Some(c) => seq![c, handler],
        None => seq![handler],
    }
}

pub open spec fn views(v: Seq<String>) -> Seq<Seq<char>> {
    v.map_values(|s: String| s@)
}

impl FunctionConfig {
    pub open spec fn spec_cmd(&self) -> Option<Seq<char>> {
        match self.cmd {
            Some(c) => Some(c@),
            None => None,
        }
    }

    /// A declaration with a fresh random identity.
    pub fn new(method: String, route: String, handler: String, cmd: Option<String>, runtime: String) -> (r: FunctionConfig)
        ensures
            r.method == method,
            r.route == route,
            r.handler == handler,
            r.cmd == cmd,
            r.runtime == runtime,
    {
        FunctionConfig { method, route, handler, cmd, runtime, id: new_identity() }
    }

    pub fn id(&self) -> (r: u128)
        ensures
            r == self.id,
    {
        self.id
    }

    /// The program and arguments that launch the handler: the declared
    /// program followed by the handler, or the handler alone.
    pub fn cmd(&self) -> (r: Vec<String>)
        ensures
            views(r@) == command_of(self.spec_cmd(), self.handler@),
    {
        let mut v: Vec<String> = Vec::new();
        match &self.cmd {
            Some(c) => {
                v.push(c.clone());
                v.push(self.handler.clone());
            },
            None => {
                v.push(self.handler.clone());
            },
        }
        proof {
            assert(views(v@) =~= command_of(self.spec_cmd(), self.handler@));
        }
        v
    }

    /// The command line of a handler process that is to listen on `socket_path`.
    pub fn command_line(&self, socket_path: &String) -> (r: Vec<String>)
        ensures
            views(r@) == command_of(self.spec_cmd(), self.handler@).push(socket_path@),
    {
        let mut v = self.cmd();
        let ghost before = v@;
        v.push(socket_path.clone());
        proof {
            assert(views(v@) =~= views(before).push(socket_path@));
        }
        v
    }
}

/// The address of a handler's socket: the file `sock` in its private directory.
pub fn socket_path(dir: &String) -> (r: String)
    ensures
        r@ == dir@ + "/sock"@,
{
    let mut p = dir.clone();
    p.append("/sock");
    p
}

/// The HTTP methods that a function can be routed under.
#[derive(Debug, Clone, Copy, PartialEq, Eq, Structural)]
pub enum HttpMethod {
    Get,
    Post,
}

/// A configuration that the gateway cannot start with.
#[derive(Debug)]
pub enum ConfigError {
    /// The configuration declares no function.
    NoFunctions,
    /// The method is not an HTTP method.
    MethodError(String),
    /// The method has no handler.
    UnimplementedMethod(String),
}

impl ConfigError {
    /// The message of the failure.
    pub fn message(&self) -> (r: String)
        ensures
            match self {
                ConfigError::NoFunctions => r@ == "Config must contain at least 1 function"@,
                ConfigError::MethodError(m) => r@ == "Failed to convert method listed in config: "@ + m@,
                ConfigError::UnimplementedMethod(m) => r@ == "A handler for this HTTP Method has not been implemented: "@ + m@,
            },
    {
        match self {
            ConfigError::NoFunctions => String::from_str("Config must contain at least 1 function"),
            ConfigError::MethodError(m) => prefixed("Failed to convert method listed in config: ", m),
            ConfigError::UnimplementedMethod(m) => prefixed(
                "A handler for this HTTP Method has not been implemented: ",
                m,
            ),
        }
    }
}

/// How a declared method is routed: by its upper-case form.
pub open spec fn method_route(method: Seq<char>) -> Result<HttpMethod, Seq<char>> {
    let m = upper_of(method);
    if m == "GET"@ {
        Ok(HttpMethod::Get)
    } else if m == "POST"@ {
        Ok(HttpMethod::Post)
    } else {
        Err(m)
    }
}

/// The route of a declared method, or why it has none.
pub fn route_method(method: &String) -> (r: Result<HttpMethod, ConfigError>)
    ensures
        match method_route(method@) {
            Ok(m) => r == Ok::<HttpMethod, ConfigError>(m),
            Err(u) => match r {
                Err(ConfigError::UnimplementedMethod(s)) => method_token(u) && s@ == method@,
                Err(ConfigError::MethodError(s)) => !method_token(u) && s@ == method@,
                _ => false,
            },
        },
{
    let m = uppercase(method.as_str());
    if m == String::from_str("GET") {
        Ok(HttpMethod::Get)
    } else if m == String::from_str("POST") {
        Ok(HttpMethod::Post)
    } else if is_method_token(m.as_str()) {
        Err(ConfigError::UnimplementedMethod(method.clone()))
    } else {
        Err(ConfigError::MethodError(method.clone()))
    }
}

/// The gateway's configuration.
#[derive(Debug)]
pub struct Config {
    networking: NetworkingConfig,
    functions: Vec<FunctionConfig>,
}

impl Config {
    pub closed spec fn spec_networking(&self) -> &NetworkingConfig {
        &self.networking
    }

    pub closed spec fn spec_functions(&self) -> Seq<FunctionConfig> {
        self.functions@
    }

    pub fn new(networking: NetworkingConfig, functions: Vec<FunctionConfig>) -> (r: Config)
        ensures
            r.spec_networking() == networking,
            r.spec_functions() == functions@,
    {
        Config { networking, functions }
    }

    pub fn functions(&self) -> (r: &Vec<FunctionConfig>)
        ensures
            r@ == self.spec_functions(),
    {
        &self.functions
    }

    pub fn networking(&self) -> (r: &NetworkingConfig)
        ensures
            r == self.spec_networking(),
    {
        &self.networking
    }

    /// The address to bind the HTTP server to: `host:port`.
    pub fn address(&self) -> (r: String)
        ensures
            r@ == self.spec_networking().host@ + ":"@ + self.spec_networking().port@,
    {
        let mut a = self.networking.host.clone();
        a.append(":");
        a.append(self.networking.port.as_str());
        a
    }

    pub fn default_host() -> (r: String)
        ensures
            r@ == "0.0.0.0"@,
    {
        String::from_str("0.0.0.0")
    }

    pub fn default_port() -> (r: String)
        ensures
            r@ == "80"@,
    {
        String::from_str("80")
    }

    /// The method of each declared function, in order; the configuration is
    /// refused when it declares no function or a method that is not routed.
    pub fn routes(&self) -> (r: Result<Vec<HttpMethod>, ConfigError>)
        ensures
            self.spec_functions().len() == 0 ==> r matches Err(ConfigError::NoFunctions),
            r is Ok <==> self.spec_functions().len() > 0 && forall|i: int|
                0 <= i < self.spec_functions().len() ==> (#[trigger] method_route(self.spec_functions()[i].method@)) is Ok,
            r is Ok ==> r->Ok_0@.len() == self.spec_functions().len() && forall|i: int|
                0 <= i < r->Ok_0@.len() ==> Ok::<HttpMethod, Seq<char>>(#[trigger] r->Ok_0@[i]) == method_route(
                    self.spec_functions()[i].method@,
                ),
    {
        if self.functions.len() == 0 {
            return Err(ConfigError::NoFunctions);
        }
        let mut out: Vec<HttpMethod> = Vec::new();
        let mut i: usize = 0;
        while i < self.functions.len()
            invariant
                0 <= i <= self.functions@.len(),
                self.functions@.len() > 0,
                out@.len() == i,
                forall|j: int| 0 <= j < i ==> Ok::<HttpMethod, Seq<char>>(#[trigger] out@[j]) == method_route(
                    self.functions@[j].method@,
                ),
            decreases self.functions@.len() - i,
        {
            match route_method(&self.functions[i].method) {
                Ok(m) => out.push(m),
                Err(e) => {
                    proof {
                        assert(method_route(self.functions@[i as int].method@) is Err);
                    }
                    return Err(e);
                },
            }
            i = i + 1;
        }
        proof {
            assert forall|j: int| 0 <= j < self.functions@.len() implies (#[trigger] method_route(
                self.functions@[j].method@,
            )) is Ok by {
                assert(Ok::<HttpMethod, Seq<char>>(out@[j]) == method_route(self.functions@[j].method@));
            }
        }
        Ok(out)
    }
}

} // verus!
