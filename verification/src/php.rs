//! The PHP sidecar: which port it serves on, how it is launched, and the
//! lifecycle of its process handle.
use vstd::prelude::*;
use vstd::string::StringExecFns;

use crate::ports::{
    api_base_url, api_base_url_spec, listen_address, loopback_address, port_or, port_or_spec,
    request_port_or, DEFAULT_PHP_PORT,
};

verus! {

/// The shared secret with which the PHP application and the shell recognise each other.
pub open spec fn bridge_secret_spec() -> Seq<char> {
    "NativePHPTauriSecret"@
}

/// The shared secret.
pub fn bridge_secret() -> (secret: String)
    ensures
        secret@ == bridge_secret_spec(),
{
    "NativePHPTauriSecret".to_owned()
}

/// The application directory: the `APP_PATH` setting where there is one,
/// else the current directory.
pub open spec fn app_path_spec(app_path_var: Option<String>, cwd: Seq<char>) -> Seq<char> {
    match app_path_var {
        Some(p) => p@,
        None => cwd,
    }
}

/// The arguments of the PHP built-in server: listen on the loopback address
/// at `port`, serve `<app>/public`, route through `<cwd>/router.php`.
pub open spec fn sidecar_args(port: u16, app: Seq<char>, cwd: Seq<char>) -> Seq<Seq<char>> {
    seq!["-S"@, loopback_address(port), "-t"@, app + "/public"@, cwd + "/router.php"@]
}

/// The environment of the PHP server.
pub open spec fn sidecar_env(api_port: u16, app: Seq<char>) -> Seq<(Seq<char>, Seq<char>)> {
    seq![
        ("NATIVEPHP_RUNNING"@, "true"@),
        ("NATIVEPHP_API_URL"@, api_base_url_spec(api_port)),
        ("APP_PATH"@, app),
        ("NATIVEPHP_STORAGE_PATH"@, app + "/storage"@),
        ("NATIVEPHP_DATABASE_PATH"@, app + "/database/database.sqlite"@),
        ("NATIVEPHP_SECRET"@, bridge_secret_spec()),
    ]
}

/// What the shell has to run to start the PHP server: the sidecar's name,
/// its arguments and its environment variables.
#[derive(Debug, PartialEq, Eq)]
pub struct SidecarLaunch {
    pub program: String,
    pub args: Vec<String>,
    pub envs: Vec<(String, String)>,
}

/// Why the sidecar could not be started, with the shell's own message.
#[derive(Debug, PartialEq, Eq)]
pub enum SidecarError {
    CommandCreation(String),
    Spawn(String),
}

/// The message that a failed start reports.
pub open spec fn sidecar_error_message(e: SidecarError) -> Seq<char> {
    match e {
        SidecarError::CommandCreation(m) => "Failed to create sidecar command: "@ + m@,
        SidecarError::Spawn(m) => "Failed to spawn PHP sidecar: "@ + m@,
    }
}

/// The process handle after a start: the spawned process where the launch
/// succeeded, else the handle there was before.
pub open spec fn handle_after_start<C>(before: Option<C>, outcome: Result<C, SidecarError>) -> Option<C> {
    match outcome {
        Ok(child) => Some(child),
        Err(_) => before,
    }
}

/// The PHP server run beside the shell: the port it serves on and, once it
/// has been started, the handle of its process.
pub struct PhpServer<C> {
    process: Option<C>,
    pub port: u16,
}

fn pair(k: &str, v: String) -> (p: (String, String))
    ensures
        p.0@ == k@,
        p.1@ == v@,
{
    (k.to_owned(), v)
}

impl<C> PhpServer<C> {
    /// The handle of the running process, if one was started and not stopped.
    pub closed spec fn process_handle(&self) -> Option<C> {
        self.process
    }

    /// The port the server serves on (the public field `port`).
    pub closed spec fn port_of(&self) -> u16 {
        self.port
    }

    /// A server that has not been started: no process, port 8100.
    pub fn new() -> (server: Self)
        ensures
            server.process_handle() is None,
            server.port_of() == DEFAULT_PHP_PORT,
    {
        PhpServer { process: None, port: DEFAULT_PHP_PORT }
    }

    /// Settles the port (the one offered, else 8100) and says how to launch
    /// the server: the sidecar `php` with `sidecar_args` and `sidecar_env`,
    /// where the application directory is `APP_PATH` or else `cwd`.
    pub fn prepare_launch(
        &mut self,
        api_port: u16,
        offered_port: Option<u16>,
        app_path_var: Option<String>,
        cwd: String,
    ) -> (launch: SidecarLaunch)
        ensures
            final(self).port_of() == port_or_spec(offered_port, DEFAULT_PHP_PORT),
            final(self).process_handle() == old(self).process_handle(),
            launch.program@ == "php"@,
            launch.args.deep_view() == sidecar_args(
                final(self).port_of(),
                app_path_spec(app_path_var, cwd@),
                cwd@,
            ),
            launch.envs.deep_view() == sidecar_env(api_port, app_path_spec(app_path_var, cwd@)),
    {
        let ghost cwd_view = cwd@;
        let ghost app_view = app_path_spec(app_path_var, cwd@);
        let app_path = match app_path_var {
            Some(p) => p,
            None => cwd.clone(),
        };
        self.port = port_or(offered_port, DEFAULT_PHP_PORT);

        let server_path = cwd.concat("/router.php");
        let public_path = app_path.clone().concat("/public");
        let storage_path = app_path.clone().concat("/storage");
        let database_path = app_path.clone().concat("/database/database.sqlite");

        let mut args: Vec<String> = Vec::new();
        args.push("-S".to_owned());
        args.push(listen_address(self.port));
        args.push("-t".to_owned());
        args.push(public_path);
        args.push(server_path);

        let mut envs: Vec<(String, String)> = Vec::new();
        envs.push(pair("NATIVEPHP_RUNNING", "true".to_owned()));
        envs.push(pair("NATIVEPHP_API_URL", api_base_url(api_port)));
        envs.push(pair("APP_PATH", app_path.clone()));
        envs.push(pair("NATIVEPHP_STORAGE_PATH", storage_path));
        envs.push(pair("NATIVEPHP_DATABASE_PATH", database_path));
        envs.push(pair("NATIVEPHP_SECRET", bridge_secret()));

        assert(args.deep_view() =~= sidecar_args(self.port, app_view, cwd_view));
        assert(envs.deep_view() =~= sidecar_env(api_port, app_view));
        SidecarLaunch { program: "php".to_owned(), args, envs }
    }

    /// Asks the operating system for a free port and prepares the launch on
    /// it as `prepare_launch` does; the port is whatever the system offered,
    /// or 8100.
    pub fn start(&mut self, api_port: u16, app_path_var: Option<String>, cwd: String) -> (launch:
        SidecarLaunch)
        ensures
            final(self).process_handle() == old(self).process_handle(),
            launch.program@ == "php"@,
            launch.args.deep_view() == sidecar_args(
                final(self).port_of(),
                app_path_spec(app_path_var, cwd@),
                cwd@,
            ),
            launch.envs.deep_view() == sidecar_env(api_port, app_path_spec(app_path_var, cwd@)),
    {
        let port = request_port_or(DEFAULT_PHP_PORT);
        self.prepare_launch(api_port, Some(port), app_path_var, cwd)
    }

    /// Records how the launch went: a spawned process is kept (replacing
    /// any earlier handle) and the start succeeds; a failure leaves the
    /// handle as it was and reports `sidecar_error_message`.
    pub fn finish_start(&mut self, outcome: Result<C, SidecarError>) -> (res: Result<(), String>)
        ensures
            final(self).port_of() == old(self).port_of(),
            final(self).process_handle() == handle_after_start(old(self).process_handle(), outcome),
            match outcome {
                Ok(child) => {
                    &&& res is Ok
                    &&& final(self).process_handle() == Some(child)
                },
                Err(e) => {
                    &&& res is Err
                    &&& res->Err_0@ == sidecar_error_message(e)
                    &&& final(self).process_handle() == old(self).process_handle()
                },
            },
    {
        match outcome {
            Ok(child) => {
                self.process = Some(child);
                Ok(())
            },
            Err(SidecarError::CommandCreation(m)) => {
                Err("Failed to create sidecar command: ".to_owned().concat(m.as_str()))
            },
            Err(SidecarError::Spawn(m)) => {
                Err("Failed to spawn PHP sidecar: ".to_owned().concat(m.as_str()))
            },
        }
    }

    /// Takes the handle of the running process, if any, for the caller to
    /// kill; afterwards no process is recorded.
    pub fn stop(&mut self) -> (taken: Option<C>)
        ensures
            taken == old(self).process_handle(),
            final(self).process_handle() is None,
            final(self).port_of() == old(self).port_of(),
    {
        self.process.take()
    }
}

} // verus!
