use vstd::prelude::*;

use crate::error::ToucanError;

verus! {

/// Configuration for the error-tracking client.
///
/// Only the DSN is required to build a `SentryConfig`; the other fields are
/// optional and can be filled in directly when they are needed.
#[derive(Debug)]
pub struct SentryConfig {
    /// Data source name: tells the client where events are reported to.
    pub dsn: String,
    /// Environment name reported with each event, when given.
    pub environment: Option<String>,
    /// CF Access client id, sent as a transport header when given.
    pub cf_access_client_id: Option<String>,
    /// CF Access client secret, sent as a transport header when given.
    pub cf_access_client_secret: Option<String>,
}

/// Name of the transport header that carries the CF Access client id.
pub open spec fn cf_access_client_id_name() -> Seq<char> {
    "CF-Access-Client-ID"@
}

/// Name of the transport header that carries the CF Access client secret.
pub open spec fn cf_access_client_secret_name() -> Seq<char> {
    "CF-Access-Client-Secret"@
}

/// The request header names that the client is allowed to forward, in the
/// order they are handed to it.
pub open spec fn allowed_header_names() -> Seq<Seq<char>> {
    seq![
        "user-agent"@,
        "accept-encoding"@,
        "accept-language"@,
        "cf-ray"@,
        "content-length"@,
        "content-type"@,
        "x-real-ip"@,
        "host"@,
    ]
}

/// The transport headers induced by the optional CF Access credentials: the
/// id entry first when present, then the secret entry when present.
pub open spec fn transport_headers_of(
    id: Option<Seq<char>>,
    secret: Option<Seq<char>>,
) -> Seq<(Seq<char>, Seq<char>)> {
    (match id {
        Option::Some(i) => seq![(cf_access_client_id_name(), i)],
        Option::None => Seq::<(Seq<char>, Seq<char>)>::empty(),
    }) + (match secret {
        Option::Some(s) => seq![(cf_access_client_secret_name(), s)],
        Option::None => Seq::<(Seq<char>, Seq<char>)>::empty(),
    })
}

/// The initialization options for the external client, laid out as plain
/// values in the order they are placed on the client's options object. The
/// surrounding application translates them one field at a time.
#[derive(Debug)]
pub struct InitOptions {
    /// Data source name.
    pub dsn: String,
    /// Transport header entries, name and value.
    pub transport_headers: Vec<(String, String)>,
    /// Request header names the client may forward.
    pub allowed_headers: Vec<String>,
    /// Whether the originating request is attached to the options.
    pub include_request: bool,
    /// Whether the execution context is attached to the options.
    pub include_context: bool,
    /// Whether the client's debug mode is switched on.
    pub debug: bool,
    /// Environment name, when given.
    pub environment: Option<String>,
}

impl SentryConfig {
    /// Build the configuration from a DSN.
    ///
    /// This does not require an environment or CF Access credentials; the
    /// `SentryConfig` struct can be built directly if those are needed.
    pub fn from_dsn(dsn: String) -> (r: Result<SentryConfig, ToucanError>)
        ensures
            r matches Ok(c) && c.dsn == dsn && c.environment is None
                && c.cf_access_client_id is None && c.cf_access_client_secret is None,
    {
        Ok(
            SentryConfig {
                dsn,
                environment: None,
                cf_access_client_id: None,
                cf_access_client_secret: None,
            },
        )
    }

    /// Lay the configuration out as initialization options for the external
    /// client: the CF Access credentials become transport headers, the fixed
    /// list of allowed request headers is attached, debug is switched off,
    /// and the environment is kept when given.
    pub fn into_init_options(self, include_request: bool, include_context: bool) -> (o:
        InitOptions)
        ensures
            o.dsn == self.dsn,
            o.environment == self.environment,
            o.transport_headers.deep_view() == transport_headers_of(
                self.cf_access_client_id.deep_view(),
                self.cf_access_client_secret.deep_view(),
            ),
            o.allowed_headers.deep_view() == allowed_header_names(),
            o.include_request == include_request,
            o.include_context == include_context,
            o.debug == false,
    {
        let SentryConfig { dsn, environment, cf_access_client_id, cf_access_client_secret } = self;

        let mut transport_headers: Vec<(String, String)> = Vec::new();
        if let Some(id) = cf_access_client_id {
            transport_headers.push(("CF-Access-Client-ID".to_owned(), id));
        }
        if let Some(secret) = cf_access_client_secret {
            transport_headers.push(("CF-Access-Client-Secret".to_owned(), secret));
        }

        let mut allowed_headers: Vec<String> = Vec::new();
        allowed_headers.push("user-agent".to_owned());
        allowed_headers.push("accept-encoding".to_owned());
        allowed_headers.push("accept-language".to_owned());
        allowed_headers.push("cf-ray".to_owned());
        allowed_headers.push("content-length".to_owned());
        allowed_headers.push("content-type".to_owned());
        allowed_headers.push("x-real-ip".to_owned());
        allowed_headers.push("host".to_owned());

        let o = InitOptions {
            dsn,
            transport_headers,
            allowed_headers,
            include_request,
            include_context,
            debug: false,
            environment,
        };
        proof {
            assert(o.transport_headers.deep_view() =~= transport_headers_of(
                self.cf_access_client_id.deep_view(),
                self.cf_access_client_secret.deep_view(),
            ));
            assert(o.allowed_headers.deep_view() =~= allowed_header_names());
        }
        o
    }
}

/// `wasm_bindgen::JsValue` is declared so that it can appear as the default
/// type argument of `js_sys::Object`. The library never looks inside one.
#[verifier::external_type_specification]
#[verifier::external_body]
pub struct ExJsValue(wasm_bindgen::JsValue);

/// `js_sys::Object` is declared so that plain JavaScript objects handed to
/// the passthrough methods can ride through the library's commands. The
/// library never looks inside one.
#[verifier::external_type_specification]
#[verifier::external_body]
#[verifier::reject_recursive_types(T)]
pub struct ExObject<T>(js_sys::Object<T>);

/// `js_sys::Error` is declared so that JavaScript error values handed to the
/// passthrough methods can ride through the library's commands. The library
/// never looks inside one.
#[verifier::external_type_specification]
#[verifier::external_body]
pub struct ExJsError(js_sys::Error);

/// One operation requested of the external client, exactly as a passthrough
/// method received it. JavaScript payloads are carried through untouched.
#[derive(Debug)]
pub enum SentryCommand {
    /// Set a tag on every later event.
    SetTag { key: String, value: String },
    /// Attach a named context object to every later event.
    SetContext { name: String, object: js_sys::Object },
    /// Capture a plain message.
    CaptureMessage { message: String },
    /// Capture a JavaScript error value.
    CaptureException { error: js_sys::Error },
    /// Set the tracing propagation context.
    SetPropagationContext { context: js_sys::Object },
    /// Attach a request body to every later event.
    SetRequestBody { body: String },
    /// Switch reporting on or off.
    SetEnabled { enabled: bool },
    /// Record a breadcrumb, keeping at most the given number.
    AddBreadcrumb { breadcrumb: js_sys::Object, max_breadcrumbs: u32 },
}

/// What a command says, with the readable parts as mathematical values.
/// JavaScript payloads are opaque, so only their presence is recorded.
pub enum CommandView {
    SetTag { key: Seq<char>, value: Seq<char> },
    SetContext { name: Seq<char> },
    CaptureMessage { message: Seq<char> },
    CaptureException,
    SetPropagationContext,
    SetRequestBody { body: Seq<char> },
    SetEnabled { enabled: bool },
    AddBreadcrumb { max_breadcrumbs: u32 },
}

impl View for SentryCommand {
    type V = CommandView;

    open spec fn view(&self) -> CommandView {
        match self {
            SentryCommand::SetTag { key, value } => CommandView::SetTag {
                key: key@,
                value: value@,
            },
            SentryCommand::SetContext { name, .. } => CommandView::SetContext { name: name@ },
            SentryCommand::CaptureMessage { message } => CommandView::CaptureMessage {
                message: message@,
            },
            SentryCommand::CaptureException { .. } => CommandView::CaptureException,
            SentryCommand::SetPropagationContext { .. } => CommandView::SetPropagationContext,
            SentryCommand::SetRequestBody { body } => CommandView::SetRequestBody { body: body@ },
            SentryCommand::SetEnabled { enabled } => CommandView::SetEnabled { enabled: *enabled },
            SentryCommand::AddBreadcrumb { max_breadcrumbs, .. } => CommandView::AddBreadcrumb {
                max_breadcrumbs: *max_breadcrumbs,
            },
        }
    }
}

/// The client, modelled by what it was initialized with and the commands
/// issued through it so far. Each passthrough method maps one typed call to
/// exactly one command; the surrounding application performs the commands on
/// the external JavaScript client in the order they were issued.
#[derive(Debug)]
pub struct SentryClient {
    /// The options the client was initialized with.
    pub options: InitOptions,
    /// The commands issued so far that the application has not yet drained.
    pub commands: Vec<SentryCommand>,
}

impl View for SentryClient {
    type V = Seq<CommandView>;

    /// The commands issued through the client, oldest first.
    open spec fn view(&self) -> Seq<CommandView> {
        Seq::new(self.commands@.len(), |i: int| self.commands@[i]@)
    }
}

impl SentryClient {
    /// Record a client initialized with the given options and with no
    /// commands issued yet.
    pub fn new(options: InitOptions) -> (c: SentryClient)
        ensures
            c.options == options,
            c.commands@ =~= Seq::<SentryCommand>::empty(),
            c@ =~= Seq::<CommandView>::empty(),
    {
        SentryClient { options, commands: Vec::new() }
    }

    /// See the client's setTag documentation.
    pub fn set_tag(&mut self, key: &str, value: &str)
        ensures
            final(self)@ == old(self)@.push(CommandView::SetTag { key: key@, value: value@ }),
            final(self).commands@.len() == old(self).commands@.len() + 1,
            final(self).commands@.drop_last() == old(self).commands@,
            final(self).commands@.last() matches SentryCommand::SetTag { key: k, value: v }
                && k@ == key@ && v@ == value@,
            final(self).options == old(self).options,
    {
        self.commands.push(SentryCommand::SetTag { key: key.to_owned(), value: value.to_owned() });
        proof {
            assert(self@ =~= old(self)@.push(CommandView::SetTag { key: key@, value: value@ }));
            assert(self.commands@.drop_last() =~= old(self).commands@);
        }
    }

    /// See the client's setContext documentation.
    pub fn set_context(&mut self, name: &str, value: js_sys::Object)
        ensures
            final(self)@ == old(self)@.push(CommandView::SetContext { name: name@ }),
            final(self).commands@.len() == old(self).commands@.len() + 1,
            final(self).commands@.drop_last() == old(self).commands@,
            final(self).commands@.last() matches SentryCommand::SetContext { name: n, object: o }
                && n@ == name@ && o == value,
            final(self).options == old(self).options,
    {
        self.commands.push(SentryCommand::SetContext { name: name.to_owned(), object: value });
        proof {
            assert(self@ =~= old(self)@.push(CommandView::SetContext { name: name@ }));
            assert(self.commands@.drop_last() =~= old(self).commands@);
        }
    }

    /// See the client's captureMessage documentation.
    pub fn capture_message(&mut self, message: &str)
        ensures
            final(self)@ == old(self)@.push(CommandView::CaptureMessage { message: message@ }),
            final(self).commands@.len() == old(self).commands@.len() + 1,
            final(self).commands@.drop_last() == old(self).commands@,
            final(self).commands@.last() matches SentryCommand::CaptureMessage { message: m }
                && m@ == message@,
            final(self).options == old(self).options,
    {
        self.commands.push(SentryCommand::CaptureMessage { message: message.to_owned() });
        proof {
            assert(self@ =~= old(self)@.push(CommandView::CaptureMessage { message: message@ }));
            assert(self.commands@.drop_last() =~= old(self).commands@);
        }
    }

    /// See the client's captureException documentation, for an error that is
    /// already a JavaScript error value.
    pub fn capture_js_error(&mut self, js_error: js_sys::Error)
        ensures
            final(self)@ == old(self)@.push(CommandView::CaptureException),
            final(self).commands@.len() == old(self).commands@.len() + 1,
            final(self).commands@.drop_last() == old(self).commands@,
            final(self).commands@.last() matches SentryCommand::CaptureException { error: e }
                && e == js_error,
            final(self).options == old(self).options,
    {
        self.commands.push(SentryCommand::CaptureException { error: js_error });
        proof {
            assert(self@ =~= old(self)@.push(CommandView::CaptureException));
            assert(self.commands@.drop_last() =~= old(self).commands@);
        }
    }

    /// See the client's setPropagationContext documentation.
    pub fn set_propagation_context(&mut self, pctx: js_sys::Object)
        ensures
            final(self)@ == old(self)@.push(CommandView::SetPropagationContext),
            final(self).commands@.len() == old(self).commands@.len() + 1,
            final(self).commands@.drop_last() == old(self).commands@,
            final(self).commands@.last() matches SentryCommand::SetPropagationContext {
                context: c,
            } && c == pctx,
            final(self).options == old(self).options,
    {
        self.commands.push(SentryCommand::SetPropagationContext { context: pctx });
        proof {
            assert(self@ =~= old(self)@.push(CommandView::SetPropagationContext));
            assert(self.commands@.drop_last() =~= old(self).commands@);
        }
    }

    /// See the client's setRequestBody documentation.
    pub fn set_request_body(&mut self, body: &str)
        ensures
            final(self)@ == old(self)@.push(CommandView::SetRequestBody { body: body@ }),
            final(self).commands@.len() == old(self).commands@.len() + 1,
            final(self).commands@.drop_last() == old(self).commands@,
            final(self).commands@.last() matches SentryCommand::SetRequestBody { body: b }
                && b@ == body@,
            final(self).options == old(self).options,
    {
        self.commands.push(SentryCommand::SetRequestBody { body: body.to_owned() });
        proof {
            assert(self@ =~= old(self)@.push(CommandView::SetRequestBody { body: body@ }));
            assert(self.commands@.drop_last() =~= old(self).commands@);
        }
    }

    /// See the client's setEnabled documentation.
    pub fn set_enabled(&mut self, enabled: bool)
        ensures
            final(self)@ == old(self)@.push(CommandView::SetEnabled { enabled }),
            final(self).commands@.len() == old(self).commands@.len() + 1,
            final(self).commands@.drop_last() == old(self).commands@,
            final(self).commands@.last() matches SentryCommand::SetEnabled { enabled: e }
                && e == enabled,
            final(self).options == old(self).options,
    {
        self.commands.push(SentryCommand::SetEnabled { enabled });
        proof {
            assert(self@ =~= old(self)@.push(CommandView::SetEnabled { enabled }));
            assert(self.commands@.drop_last() =~= old(self).commands@);
        }
    }

    /// See the client's addBreadcrumb documentation.
    pub fn add_breadcrumb(&mut self, breadcrumb: js_sys::Object, max_breadcrumbs: u32)
        ensures
            final(self)@ == old(self)@.push(CommandView::AddBreadcrumb { max_breadcrumbs }),
            final(self).commands@.len() == old(self).commands@.len() + 1,
            final(self).commands@.drop_last() == old(self).commands@,
            final(self).commands@.last() matches SentryCommand::AddBreadcrumb {
                breadcrumb: b,
                max_breadcrumbs: m,
            } && b == breadcrumb && m == max_breadcrumbs,
            final(self).options == old(self).options,
    {
        self.commands.push(SentryCommand::AddBreadcrumb { breadcrumb, max_breadcrumbs });
        proof {
            assert(self@ =~= old(self)@.push(CommandView::AddBreadcrumb { max_breadcrumbs }));
            assert(self.commands@.drop_last() =~= old(self).commands@);
        }
    }
}

} // verus!
