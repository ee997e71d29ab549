use vstd::prelude::*;

verus! {

/// Failure to assemble the configuration at startup.
#[derive(Debug)]
pub enum ConfigError {
    BuildError(String),
}

/// Read access to the six settings that the autohost runs on.
pub trait Config {
    spec fn spring_path(&self) -> Seq<char>;

    spec fn start_script_path(&self) -> Seq<char>;

    spec fn write_dir_path(&self) -> Seq<char>;

    spec fn domain(&self) -> Seq<char>;

    spec fn login_email(&self) -> Seq<char>;

    spec fn login_password(&self) -> Seq<char>;

    fn get_spring_relative_path(&self) -> (r: &str)
        ensures
            r@ == self.spring_path(),
    ;

    fn get_start_script_relative_path(&self) -> (r: &str)
        ensures
            r@ == self.start_script_path(),
    ;

    fn get_write_dir_relative_path(&self) -> (r: &str)
        ensures
            r@ == self.write_dir_path(),
    ;

    fn get_server_domain(&self) -> (r: &str)
        ensures
            r@ == self.domain(),
    ;

    fn get_server_login_email(&self) -> (r: &str)
        ensures
            r@ == self.login_email(),
    ;

    fn get_server_login_password(&self) -> (r: &str)
        ensures
            r@ == self.login_password(),
    ;
}

/// The autohost's settings: three paths relative to the autohost's root
/// directory, and the lobby server's domain with the login to use there.
pub struct AutohostConfig {
    pub spring_relative_path: String,
    pub start_script_relative_path: String,
    pub write_dir_relative_path: String,
    pub server_domain: String,
    pub server_login_email: String,
    pub server_login_password: String,
}

impl Config for AutohostConfig {
    open spec fn spring_path(&self) -> Seq<char> {
        self.spring_relative_path@
    }

    open spec fn start_script_path(&self) -> Seq<char> {
        self.start_script_relative_path@
    }

    open spec fn write_dir_path(&self) -> Seq<char> {
        self.write_dir_relative_path@
    }

    open spec fn domain(&self) -> Seq<char> {
        self.server_domain@
    }

    open spec fn login_email(&self) -> Seq<char> {
        self.server_login_email@
    }

    open spec fn login_password(&self) -> Seq<char> {
        self.server_login_password@
    }

    fn get_spring_relative_path(&self) -> (r: &str) {
        self.spring_relative_path.as_str()
    }

    fn get_start_script_relative_path(&self) -> (r: &str) {
        self.start_script_relative_path.as_str()
    }

    fn get_write_dir_relative_path(&self) -> (r: &str) {
        self.write_dir_relative_path.as_str()
    }

    fn get_server_domain(&self) -> (r: &str) {
        self.server_domain.as_str()
    }

    fn get_server_login_email(&self) -> (r: &str) {
        self.server_login_email.as_str()
    }

    fn get_server_login_password(&self) -> (r: &str) {
        self.server_login_password.as_str()
    }
}

} // verus!
