//! Launching a game client from the desktop application and from the
//! `cork` helper: which settings a launch uses, the checks made before it,
//! the client's command line, and what the application shows afterwards.
use vstd::prelude::*;

use crate::backend::{AppModal, Backend, Client};
use crate::settings::{AlembicSettings, ClientConfigType};
use crate::text::{push_str, string_of};

verus! {

/// The client, server, account and DLL (by index) that a launch from the
/// main page uses: the selected ones that exist, and the DLL selected for
/// that client.
pub struct LaunchChoice {
    pub client: Option<usize>,
    pub server: Option<usize>,
    pub account: Option<usize>,
    pub dll: Option<usize>,
}

/// The "Launch" button is enabled once an account is selected.
pub fn can_launch(settings: &AlembicSettings) -> (r: bool)
    ensures
        r == settings.selected_account is Some,
{
    settings.selected_account.is_some()
}

/// What a launch from the main page uses.
pub fn launch_choice(settings: &AlembicSettings) -> (r: LaunchChoice)
    ensures
        r.client == settings.selected_client_index(),
        r.server == settings.selected_server_index(),
        r.account == settings.selected_account_index(),
        r.dll == match settings.selected_client_index() {
            Some(c) => settings.client_selected_dll_index(c),
            None => None,
        },
{
    let client = settings.get_selected_client();
    let dll = match client {
        Some(c) => settings.get_client_selected_dll(c),
        None => None,
    };
    LaunchChoice {
        client,
        server: settings.get_selected_server(),
        account: settings.get_selected_account(),
        dll,
    }
}

/// Why a launch from the main page was refused before it started.
#[derive(Debug, PartialEq, Eq, Structural)]
pub enum LaunchRefusal {
    NoClient,
    /// A Wine client on Windows.
    WineOnWindows,
    /// A Windows client elsewhere.
    WindowsElsewhere,
    NoServer,
    NoAccount,
}

impl LaunchRefusal {
    /// The message of the refusal.
    pub fn message(&self) -> (r: &'static str)
        ensures
            r@ == match *self {
                LaunchRefusal::NoClient => "No client selected."@,
                LaunchRefusal::WineOnWindows =>
                    "Wine client configuration is not supported on Windows. Please use a Windows client configuration."@,
                LaunchRefusal::WindowsElsewhere =>
                    "Windows client configuration is not supported on this platform. Please use a Wine client configuration."@,
                LaunchRefusal::NoServer => "No server selected."@,
                LaunchRefusal::NoAccount => "No account selected."@,
            },
    {
        match self {
            LaunchRefusal::NoClient => "No client selected.",
            LaunchRefusal::WineOnWindows =>
                "Wine client configuration is not supported on Windows. Please use a Windows client configuration.",
            LaunchRefusal::WindowsElsewhere =>
                "Windows client configuration is not supported on this platform. Please use a Wine client configuration.",
            LaunchRefusal::NoServer => "No server selected.",
            LaunchRefusal::NoAccount => "No account selected.",
        }
    }
}

/// The checks before a launch, in order: a client is chosen and runs on
/// this host (`on_windows`: a native Windows build, which runs Windows
/// clients only; other hosts run Wine clients only), a server and an
/// account are chosen.
pub fn check_try_launch(settings: &AlembicSettings, choice: &LaunchChoice, on_windows: bool) -> (r: Result<(), LaunchRefusal>)
    requires
        choice.client matches Some(c) ==> c < settings.clients@.len(),
    ensures
        r == match choice.client {
            None => Err(LaunchRefusal::NoClient),
            Some(c) => if on_windows && settings.clients@[c as int] is Wine {
                Err(LaunchRefusal::WineOnWindows)
            } else if !on_windows && settings.clients@[c as int] is Windows {
                Err(LaunchRefusal::WindowsElsewhere)
            } else if choice.server is None {
                Err(LaunchRefusal::NoServer)
            } else if choice.account is None {
                Err(LaunchRefusal::NoAccount)
            } else {
                Ok(())
            },
        },
{
    match choice.client {
        None => Err(LaunchRefusal::NoClient),
        Some(c) => {
            let wine = settings.clients[c].is_wine();
            if on_windows && wine {
                Err(LaunchRefusal::WineOnWindows)
            } else if !on_windows && !wine {
                Err(LaunchRefusal::WindowsElsewhere)
            } else if choice.server.is_none() {
                Err(LaunchRefusal::NoServer)
            } else if choice.account.is_none() {
                Err(LaunchRefusal::NoAccount)
            } else {
                Ok(())
            }
        },
    }
}

/// The text of the message box for a failed launch.
pub open spec fn launch_error_text(error: Seq<char>) -> Seq<char> {
    "The following error was encountered when trying to launch:\n\n"@ + error
        + "\n\nPlease check your settings and try again."@
}

/// What the main page does with a launch's outcome: a started client (by
/// its process id, never 0) is remembered as injected; an error is shown in
/// a message box.
pub fn apply_launch_result(backend: &mut Backend, result: Result<u32, String>)
    requires
        result matches Ok(pid) ==> pid != 0,
    ensures
        match result {
            Ok(pid) => {
                &&& final(backend).client matches Some(c) && c.pid_of() == pid
                &&& final(backend).is_injected
                &&& final(backend).current_modal == old(backend).current_modal
            },
            Err(e) => {
                &&& final(backend).current_modal matches Some(m) && m.title@ == "Error Launching"@
                    && m.text@ == launch_error_text(e@)
                &&& final(backend).client == old(backend).client
                &&& final(backend).is_injected == old(backend).is_injected
            },
        },
        final(backend).status_message == old(backend).status_message,
        final(backend).news == old(backend).news,
        final(backend).community_servers == old(backend).community_servers,
        final(backend).logs == old(backend).logs,
        final(backend).packets_incoming == old(backend).packets_incoming,
        final(backend).packets_outgoing == old(backend).packets_outgoing,
        final(backend).chat_messages == old(backend).chat_messages,
        final(backend).statistics == old(backend).statistics,
{
    match result {
        Ok(pid) => {
            backend.client = Some(Client::new(pid));
            backend.is_injected = true;
        },
        Err(e) => {
            let mut text = string_of("The following error was encountered when trying to launch:\n\n");
            push_str(&mut text, e.as_str());
            push_str(&mut text, "\n\nPlease check your settings and try again.");
            backend.current_modal = Some(AppModal { title: string_of("Error Launching"), text });
        },
    }
}

/// Whether a path exists, and whether it is a file.
#[derive(Clone, Copy, Debug)]
pub struct PathCheck {
    pub exists: bool,
    pub is_file: bool,
}

/// What `cork launch` starts: the client with its command line, and the DLL
/// (with its startup function) to inject, if any.
#[derive(Debug)]
pub struct CorkLaunch {
    pub arguments: String,
    pub dll: Option<(String, Option<String>)>,
}

/// The client's command line: `-h host -p port -a account -v password`.
pub open spec fn client_arguments(hostname: Seq<char>, port: Seq<char>, account: Seq<char>, password: Seq<char>) -> Seq<char> {
    "-h "@ + hostname + " -p "@ + port + " -a "@ + account + " -v "@ + password
}

/// `r` is the error `msg`.
pub open spec fn fails_with(r: Result<CorkLaunch, String>, msg: Seq<char>) -> bool {
    match r {
        Err(e) => e@ == msg,
        Ok(_) => false,
    }
}

/// The view of an optional string.
pub open spec fn opt_str(s: Option<&str>) -> Option<Seq<char>> {
    match s {
        Some(x) => Some(x@),
        None => None,
    }
}

/// `r` launches with command line `args` and injects `dll` (a path and a
/// startup function), if any.
pub open spec fn launches(
    r: Result<CorkLaunch, String>,
    args: Seq<char>,
    dll: Option<(Seq<char>, Option<Seq<char>>)>,
) -> bool {
    match r {
        Ok(l) => l.arguments@ == args && match (l.dll, dll) {
            (Some((p, f)), Some((q, g))) => p@ == q && match (f, g) {
                (Some(a), Some(b)) => a@ == b,
                (None, None) => true,
                _ => false,
            },
            (None, None) => true,
            _ => false,
        },
        Err(_) => false,
    }
}

/// `cork launch`: the client (checked by `client_check`) must be an existing
/// file, and so must the DLL (checked by `dll_check`) when one is given;
/// else the launch fails with a message that names the path.
pub fn launch_client_with_injection(
    client_path: &str,
    hostname: &str,
    port: &str,
    account: &str,
    password: &str,
    dll_path: Option<&str>,
    dll_function: Option<&str>,
    client_check: PathCheck,
    dll_check: PathCheck,
) -> (r: Result<CorkLaunch, String>)
    ensures
        !client_check.exists ==> fails_with(
            r,
            "ERROR: AC client executable not found at path: "@ + client_path@
                + "\nPlease verify the --client path is correct."@,
        ),
        client_check.exists && !client_check.is_file ==> fails_with(
            r,
            "ERROR: AC client path exists but is not a file: "@ + client_path@
                + "\nPlease provide a path to acclient.exe"@,
        ),
        client_check.exists && client_check.is_file ==> match dll_path {
            Some(d) => if !dll_check.exists {
                fails_with(
                    r,
                    "ERROR: DLL not found at path: "@ + d@ + "\nPlease verify the --dll path is correct."@,
                )
            } else if !dll_check.is_file {
                fails_with(
                    r,
                    "ERROR: DLL path exists but is not a file: "@ + d@
                        + "\nPlease provide a path to a valid DLL file."@,
                )
            } else {
                launches(
                    r,
                    client_arguments(hostname@, port@, account@, password@),
                    Some((d@, opt_str(dll_function))),
                )
            },
            None => launches(r, client_arguments(hostname@, port@, account@, password@), None),
        },
{
    if !client_check.exists {
        let mut e = string_of("ERROR: AC client executable not found at path: ");
        push_str(&mut e, client_path);
        push_str(&mut e, "\nPlease verify the --client path is correct.");
        return Err(e);
    }
    if !client_check.is_file {
        let mut e = string_of("ERROR: AC client path exists but is not a file: ");
        push_str(&mut e, client_path);
        push_str(&mut e, "\nPlease provide a path to acclient.exe");
        return Err(e);
    }
    if let Some(d) = dll_path {
        if !dll_check.exists {
            let mut e = string_of("ERROR: DLL not found at path: ");
            push_str(&mut e, d);
            push_str(&mut e, "\nPlease verify the --dll path is correct.");
            return Err(e);
        }
        if !dll_check.is_file {
            let mut e = string_of("ERROR: DLL path exists but is not a file: ");
            push_str(&mut e, d);
            push_str(&mut e, "\nPlease provide a path to a valid DLL file.");
            return Err(e);
        }
    }
    let mut arguments = string_of("-h ");
    push_str(&mut arguments, hostname);
    push_str(&mut arguments, " -p ");
    push_str(&mut arguments, port);
    push_str(&mut arguments, " -a ");
    push_str(&mut arguments, account);
    push_str(&mut arguments, " -v ");
    push_str(&mut arguments, password);
    let dll = match dll_path {
        Some(d) => {
            let f = match dll_function {
                Some(x) => Some(string_of(x)),
                None => None,
            };
            Some((string_of(d), f))
        },
        None => None,
    };
    Ok(CorkLaunch { arguments, dll })
}

} // verus!
