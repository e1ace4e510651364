use vstd::prelude::*;

verus! {

/// Where the service keeps its files and how it runs the external tools.
#[derive(Debug)]
pub struct EnvConfig {
    /// Root of the uploads and downloads directories.
    pub dir_workspace: String,
    /// Root of the code generator, under which the per-job build directories lie.
    pub dir_pd2dsy: String,
    /// Whether the build tools may write to the service's own output.
    pub display_compilation_output: bool,
    /// The token that privileged status queries must present.
    pub admin_token: String,
}

/// Whether a request that carried `auth_header` (its `Authentication`
/// header, if any) may use the privileged status queries: the header must be
/// there and equal the admin token.
pub fn is_authenticated(auth_header: Option<&str>, env_config: &EnvConfig) -> (r: bool)
    ensures
        r == (auth_header matches Some(h) && h@ == env_config.admin_token@),
{
    match auth_header {
        Some(h) => h.to_string() == env_config.admin_token,
        None => false,
    }
}

} // verus!
