//! The startup decisions of the shell: what the webview shows, whether a
//! development server is spawned, and the reply printed for a message the
//! embedded content sends.
//!
//! The mode flag picks one of two mutually exclusive configurations: the
//! composed local page with no server and no devtools, or the fixed live
//! URL with devtools and exactly one server command. The functions here
//! decide; building the window and spawning the process happen outside, on
//! the values returned.

use vstd::prelude::*;
use vstd::string::StringSliceAdditionalSpecFns;
use crate::page::{LoadError, loaded_page, bytes_of, compose_from_files};
use crate::splice::push_all;

verus! {

/// What the webview is to display.
#[derive(Debug, PartialEq, Eq)]
pub enum PageSource {
    /// A composed page handed to the webview as inline markup.
    Inline(Vec<u8>),
    /// The live development-server URL.
    Live(Vec<u8>),
}

/// The mathematical image of a `PageSource`.
pub enum SourceModel {
    Inline(Seq<u8>),
    Live(Seq<u8>),
}

impl View for PageSource {
    type V = SourceModel;

    open spec fn view(&self) -> SourceModel {
        match self {
            PageSource::Inline(p) => SourceModel::Inline(p@),
            PageSource::Live(u) => SourceModel::Live(u@),
        }
    }
}

/// How the one webview is to be configured.
#[derive(Debug, PartialEq, Eq)]
pub struct WebviewConfig {
    pub source: PageSource,
    pub devtools: bool,
}

/// The mathematical image of a `WebviewConfig`.
pub struct ConfigModel {
    pub source: SourceModel,
    pub devtools: bool,
}

impl View for WebviewConfig {
    type V = ConfigModel;

    open spec fn view(&self) -> ConfigModel {
        ConfigModel { source: self.source@, devtools: self.devtools }
    }
}

/// The fixed development-server URL.
pub open spec fn live_url() -> Seq<u8> {
    ("http://localhost:5173").spec_bytes()
}

/// The configuration decided from the mode flag and the two content files:
/// the live URL with devtools in dev mode, otherwise the composed page.
pub open spec fn config_for(dev: bool, markup: Option<Seq<u8>>, script: Option<Seq<u8>>) -> Result<
    ConfigModel,
    LoadError,
> {
    if dev {
        Ok(ConfigModel { source: SourceModel::Live(live_url()), devtools: true })
    } else {
        match loaded_page(markup, script) {
            Ok(p) => Ok(ConfigModel { source: SourceModel::Inline(p), devtools: false }),
            Err(e) => Err(e),
        }
    }
}

/// The configuration result agrees with its model.
pub open spec fn config_result_matches(r: Result<WebviewConfig, LoadError>, m: Result<
    ConfigModel,
    LoadError,
>) -> bool {
    match (r, m) {
        (Ok(c), Ok(cm)) => c@ == cm,
        (Err(e), Err(em)) => e == em,
        _ => false,
    }
}

/// Decides the webview configuration, exactly as `config_for` says: in dev
/// mode the live URL with devtools, whatever the files hold; otherwise the
/// composed local page, or the error of the file that is missing.
pub fn webview_config(dev: bool, markup: &Option<Vec<u8>>, script: &Option<Vec<u8>>) -> (r: Result<
    WebviewConfig,
    LoadError,
>)
    ensures
        config_result_matches(r, config_for(dev, markup.deep_view(), script.deep_view())),
{
    if dev {
        let url = bytes_of("http://localhost:5173");
        Ok(WebviewConfig { source: PageSource::Live(url), devtools: true })
    } else {
        match compose_from_files(markup, script) {
            Ok(p) => Ok(WebviewConfig { source: PageSource::Inline(p), devtools: false }),
            Err(e) => Err(e),
        }
    }
}

/// A command line for one external process: the program and its arguments.
#[derive(Debug, PartialEq, Eq)]
pub struct ServerCommand {
    pub program: Vec<u8>,
    pub args: Vec<Vec<u8>>,
}

/// The mathematical image of a `ServerCommand`.
pub struct CommandModel {
    pub program: Seq<u8>,
    pub args: Seq<Seq<u8>>,
}

impl View for ServerCommand {
    type V = CommandModel;

    open spec fn view(&self) -> CommandModel {
        CommandModel { program: self.program@, args: self.args.deep_view() }
    }
}

/// The fixed development-server invocation: serve the program folder on the
/// fixed port.
pub open spec fn dev_command_model(folder: Seq<u8>) -> CommandModel {
    CommandModel {
        program: ("deno").spec_bytes(),
        args: seq![
            ("run").spec_bytes(),
            ("--allow-all").spec_bytes(),
            ("npm:vite").spec_bytes(),
            ("dev").spec_bytes(),
            ("--port").spec_bytes(),
            ("5173").spec_bytes(),
            folder,
        ],
    }
}

/// The spawn decision: exactly one development-server command in dev mode,
/// none otherwise.
pub open spec fn command_for(dev: bool, folder: Seq<u8>) -> Option<CommandModel> {
    if dev {
        Some(dev_command_model(folder))
    } else {
        None
    }
}

/// The spawn decision agrees with its model.
pub open spec fn command_option_matches(r: Option<ServerCommand>, m: Option<CommandModel>) -> bool {
    match (r, m) {
        (Some(c), Some(cm)) => c@ == cm,
        (None, None) => true,
        _ => false,
    }
}

/// Decides whether a development server is spawned, exactly as
/// `command_for` says: one fixed command in dev mode, none otherwise.
pub fn server_command(dev: bool, folder: &Vec<u8>) -> (r: Option<ServerCommand>)
    ensures
        command_option_matches(r, command_for(dev, folder@)),
{
    if dev {
        let mut args: Vec<Vec<u8>> = Vec::new();
        args.push(bytes_of("run"));
        args.push(bytes_of("--allow-all"));
        args.push(bytes_of("npm:vite"));
        args.push(bytes_of("dev"));
        args.push(bytes_of("--port"));
        args.push(bytes_of("5173"));
        let mut own_folder: Vec<u8> = Vec::new();
        push_all(&mut own_folder, folder);
        args.push(own_folder);
        let cmd = ServerCommand { program: bytes_of("deno"), args };
        proof {
            let m = dev_command_model(folder@);
            assert forall|k: int| 0 <= k < 7 implies cmd.args.deep_view()[k] == m.args[k] by {
                assert(cmd.args@[k].deep_view() =~= cmd.args@[k]@);
            }
            assert(cmd.args.deep_view() =~= m.args);
        }
        Some(cmd)
    } else {
        None
    }
}

/// The reply printed for a message the embedded content sends: a fixed
/// greeting around the message body.
pub open spec fn ipc_reply(body: Seq<u8>) -> Seq<u8> {
    ("Hello ").spec_bytes() + body + ("!").spec_bytes()
}

/// Formats the reply for one message from the embedded content.
pub fn ipc_response(body: &Vec<u8>) -> (r: Vec<u8>)
    ensures
        r@ == ipc_reply(body@),
{
    let mut r = bytes_of("Hello ");
    push_all(&mut r, body);
    let bang = bytes_of("!");
    push_all(&mut r, &bang);
    assert(r@ =~= ipc_reply(body@));
    r
}

/// With the mode flag off, the shell stays offline: the configuration never
/// uses the live URL, and no external process is spawned.
pub proof fn lemma_static_mode_offline(markup: Option<Seq<u8>>, script: Option<Seq<u8>>, folder: Seq<u8>)
    ensures
        config_for(false, markup, script) matches Ok(c) ==> c.source is Inline,
        command_for(false, folder) is None,
{
}

/// With the mode flag on, startup always succeeds in exactly one way: the
/// webview gets the live URL with devtools, the content files are not
/// consulted, and exactly one server command is issued, with the fixed
/// program and arguments.
pub proof fn lemma_dev_mode_single_spawn(markup: Option<Seq<u8>>, script: Option<Seq<u8>>, folder: Seq<u8>)
    ensures
        config_for(true, markup, script) == Ok::<ConfigModel, LoadError>(
            ConfigModel { source: SourceModel::Live(live_url()), devtools: true },
        ),
        command_for(true, folder) == Some(dev_command_model(folder)),
{
}

} // verus!
