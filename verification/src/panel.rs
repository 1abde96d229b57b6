//! The state of the control panel: what it shows of the installation, which
//! of its buttons are enabled, and the message it shows after an action.
use vstd::prelude::*;
use vstd::string::*;
use crate::config::opt_view;
use crate::locations::{parent_path, path_eq, path_parent, same_path};
use crate::config::ClientConfig;
use crate::naming::{intercepts_urls, is_url_interceptor};
use crate::proxy_flow::pairs_view;
use crate::status::{http_display, http_text, schemes_display, schemes_text, StatusReport};
use crate::templates::append_str;
use crate::text::{owned, str_eq, views};

verus! {

/// The control panel of `app_type`.
#[derive(Debug, Clone)]
pub struct StatusPanel {
    pub app_type: String,
    pub report: StatusReport,
    /// The message shown under the buttons.
    pub message: Option<String>,
    /// Whether the message reports a failure.
    pub is_error: bool,
    /// Whether the panel runs the installed executable itself.
    pub is_running_from_install_dir: bool,
}

impl StatusPanel {
    /// A panel for `app_type` showing `report`, run from `current_exe`
    /// (`None` where its path cannot be had).
    pub fn new(app_type: &str, report: StatusReport, current_exe: &Option<String>) -> (r: StatusPanel)
        ensures
            r.app_type@ == app_type@,
            r.report == report,
            r.message is None,
            !r.is_error,
            r.is_running_from_install_dir == match *current_exe {
                Some(e) => same_path(e@, report.exe_path@),
                None => false,
            },
    {
        let from_install_dir = match current_exe {
            Some(e) => path_eq(e.as_str(), report.exe_path.as_str()),
            None => false,
        };
        StatusPanel {
            app_type: owned(app_type),
            report,
            message: None,
            is_error: false,
            is_running_from_install_dir: from_install_dir,
        }
    }

    /// Shows `report`; the message stays.
    pub fn refresh(&mut self, report: StatusReport)
        ensures
            final(self).report == report,
            final(self).app_type == old(self).app_type,
            final(self).message == old(self).message,
            final(self).is_error == old(self).is_error,
            final(self).is_running_from_install_dir == old(self).is_running_from_install_dir,
    {
        self.report = report;
    }

    /// The buttons are disabled only when the panel runs the installed
    /// executable while the installation is gone.
    pub open spec fn buttons_enabled_spec(&self) -> bool {
        !(self.is_running_from_install_dir && !self.report.is_installed)
    }

    pub fn buttons_enabled(&self) -> (r: bool)
        ensures
            r == self.buttons_enabled_spec(),
    {
        !(self.is_running_from_install_dir && !self.report.is_installed)
    }

    /// Uninstalling is offered only for an installed application.
    pub fn uninstall_enabled(&self) -> (r: bool)
        ensures
            r == (self.buttons_enabled_spec() && self.report.is_installed),
    {
        self.buttons_enabled() && self.report.is_installed
    }

    pub fn install_button_text(&self) -> (r: &'static str)
        ensures
            r@ == if self.report.is_installed {
                "Reinstall / Update"@
            } else {
                "Install Service"@
            },
    {
        if self.report.is_installed {
            "Reinstall / Update"
        } else {
            "Install Service"
        }
    }

    pub fn title(&self) -> (r: &'static str)
        ensures
            r@ == if self.app_type@ == "client"@ {
                "Open Remote URL — Client Panel"@
            } else {
                "Open Remote URL — Host Panel"@
            },
    {
        if str_eq(self.app_type.as_str(), "client") {
            "Open Remote URL — Client Panel"
        } else {
            "Open Remote URL — Host Panel"
        }
    }

    pub fn installed_label(&self) -> (r: &'static str)
        ensures
            r@ == if self.report.is_installed {
                "Installed"@
            } else {
                "Not Installed"@
            },
    {
        if self.report.is_installed {
            "Installed"
        } else {
            "Not Installed"
        }
    }

    pub fn running_label(&self) -> (r: &'static str)
        ensures
            r@ == if self.report.is_running {
                "Running (Daemon)"@
            } else {
                "Stopped"@
            },
    {
        if self.report.is_running {
            "Running (Daemon)"
        } else {
            "Stopped"
        }
    }

    /// The executable path, once installed.
    pub fn exe_label(&self) -> (r: String)
        ensures
            r@ == if self.report.is_installed {
                self.report.exe_path@
            } else {
                "(Will be set upon installation)"@
            },
    {
        if self.report.is_installed {
            self.report.exe_path.clone()
        } else {
            owned("(Will be set upon installation)")
        }
    }

    /// An installation starts.
    pub fn start_install(&mut self)
        ensures
            opt_view(final(self).message) == Some("Installing service..."@),
            !final(self).is_error,
            final(self).report == old(self).report,
            final(self).app_type == old(self).app_type,
            final(self).is_running_from_install_dir == old(self).is_running_from_install_dir,
    {
        self.message = Some(owned("Installing service..."));
        self.is_error = false;
    }

    /// An installation ended with `error` (`None` on success); the panel
    /// then shows `report`.
    pub fn finish_install(&mut self, error: &Option<String>, report: StatusReport)
        ensures
            opt_view(final(self).message) == Some(
                match *error {
                    None => "Service successfully installed and started!"@,
                    Some(e) => "Installation failed: "@ + e@,
                },
            ),
            final(self).is_error == (*error is Some),
            final(self).report == report,
            final(self).app_type == old(self).app_type,
            final(self).is_running_from_install_dir == old(self).is_running_from_install_dir,
    {
        match error {
            None => {
                self.message = Some(owned("Service successfully installed and started!"));
                self.is_error = false;
            },
            Some(e) => {
                let mut m = owned("Installation failed: ");
                append_str(&mut m, e.as_str());
                self.message = Some(m);
                self.is_error = true;
            },
        }
        self.refresh(report);
    }

    /// An uninstallation starts.
    pub fn start_uninstall(&mut self)
        ensures
            opt_view(final(self).message) == Some("Uninstalling service..."@),
            !final(self).is_error,
            final(self).report == old(self).report,
            final(self).app_type == old(self).app_type,
            final(self).is_running_from_install_dir == old(self).is_running_from_install_dir,
    {
        self.message = Some(owned("Uninstalling service..."));
        self.is_error = false;
    }

    /// An uninstallation ended with `error` (`None` on success); the panel
    /// then shows `report`.
    pub fn finish_uninstall(&mut self, error: &Option<String>, report: StatusReport)
        ensures
            opt_view(final(self).message) == Some(
                match *error {
                    None => "Service successfully uninstalled!"@,
                    Some(e) => "Uninstallation failed: "@ + e@,
                },
            ),
            final(self).is_error == (*error is Some),
            final(self).report == report,
            final(self).app_type == old(self).app_type,
            final(self).is_running_from_install_dir == old(self).is_running_from_install_dir,
    {
        match error {
            None => {
                self.message = Some(owned("Service successfully uninstalled!"));
                self.is_error = false;
            },
            Some(e) => {
                let mut m = owned("Uninstallation failed: ");
                append_str(&mut m, e.as_str());
                self.message = Some(m);
                self.is_error = true;
            },
        }
        self.refresh(report);
    }

    /// The folder that "Open Settings Folder" opens: that of the
    /// configuration file (the file itself where it has no parent); it is
    /// created first where the application is installed.
    pub fn settings_folder(&self) -> (r: (String, bool))
        ensures
            r.0@ == match parent_path(self.report.config_path@) {
                Some(d) => d,
                None => self.report.config_path@,
            },
            r.1 == self.report.is_installed,
    {
        let dir = match path_parent(self.report.config_path.as_str()) {
            Some(d) => d,
            None => self.report.config_path.clone(),
        };
        (dir, self.report.is_installed)
    }

    /// The rows the panel of an application that takes over URLs (the
    /// client) adds: its extra URL schemes and whether http and https are
    /// registered; none for the others.
    pub fn scheme_rows(&self, config: &ClientConfig) -> (r: Vec<(String, String)>)
        ensures
            pairs_view(r@) == scheme_rows_spec(self.app_type@, *config),
    {
        let mut rows: Vec<(String, String)> = Vec::new();
        if is_url_interceptor(self.app_type.as_str()) {
            rows.push((owned("Custom Schemes:"), schemes_display(&config.schemes)));
            rows.push((owned("HTTP/HTTPS:"), owned(http_display(config.register_http))));
        }
        assert(pairs_view(rows@) =~= scheme_rows_spec(self.app_type@, *config));
        rows
    }

    /// Opening the settings folder failed with `error`.
    pub fn folder_error(&mut self, error: &str)
        ensures
            opt_view(final(self).message) == Some("Could not open folder: "@ + error@),
            final(self).is_error,
            final(self).report == old(self).report,
            final(self).app_type == old(self).app_type,
            final(self).is_running_from_install_dir == old(self).is_running_from_install_dir,
    {
        let mut m = owned("Could not open folder: ");
        append_str(&mut m, error);
        self.message = Some(m);
        self.is_error = true;
    }
}

/// The scheme rows of the panel of `app`.
pub open spec fn scheme_rows_spec(app: Seq<char>, config: ClientConfig) -> Seq<(Seq<char>, Seq<char>)> {
    if intercepts_urls(app) {
        seq![
            ("Custom Schemes:"@, schemes_text(views(config.schemes@))),
            ("HTTP/HTTPS:"@, http_text(config.register_http)),
        ]
    } else {
        Seq::empty()
    }
}

/// The window title of the control panel of `app`.
pub open spec fn window_title_spec(app: Seq<char>) -> Seq<char> {
    if app == "client"@ {
        "Open Remote URL Client"@
    } else {
        "Open Remote URL Host"@
    }
}

pub fn window_title(app_type: &str) -> (r: &'static str)
    ensures
        r@ == window_title_spec(app_type@),
{
    if str_eq(app_type, "client") {
        "Open Remote URL Client"
    } else {
        "Open Remote URL Host"
    }
}

} // verus!
