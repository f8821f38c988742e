//! The command-executor side of the agent: which command strings are
//! accepted, how they are normalized before being handed to the browser,
//! how long to wait after each command, and the process invocations the
//! host application performs (arguments and environment, decided here;
//! spawning left to the application).

use vstd::prelude::*;
use vstd::string::*;
use crate::errors::AgentError;
use crate::text::{starts_with_spec, str_starts_with};

verus! {

/// The wait after a page-navigating command, in milliseconds.
pub const NAV_DELAY_MS: u64 = 3000;

/// The wait after any other command, in milliseconds.
pub const DEFAULT_DELAY_MS: u64 = 1000;

/// A command the executor accepts: it begins with `:`.
pub open spec fn command_accepted(s: Seq<char>) -> bool {
    s.len() > 0 && s[0] == ':'
}

/// A command that navigates the page, so the page needs longer to settle.
pub open spec fn is_nav_command(s: Seq<char>) -> bool {
    ||| starts_with_spec(s, ":open"@)
    ||| starts_with_spec(s, ":back"@)
    ||| starts_with_spec(s, ":reload"@)
}

/// The wait that follows a command.
pub open spec fn spec_command_delay(s: Seq<char>) -> u64 {
    if is_nav_command(s) {
        NAV_DELAY_MS
    } else {
        DEFAULT_DELAY_MS
    }
}

/// `s` without its leading run of `:` characters.
pub open spec fn drop_leading_colons(s: Seq<char>) -> Seq<char>
    decreases s.len(),
{
    if s.len() > 0 && s[0] == ':' {
        drop_leading_colons(s.drop_first())
    } else {
        s
    }
}

/// Accepts exactly the strings that start with `:`; everything else is
/// rejected before any external process would be invoked.
pub fn validate_command(command: &str) -> (r: Result<(), AgentError>)
    ensures
        r is Ok <==> command_accepted(command@),
        r matches Err(e) ==> e matches AgentError::Validation { command: c } && c@ == command@,
{
    let n = command.unicode_len();
    if n > 0 && command.get_char(0) == ':' {
        Ok(())
    } else {
        Err(AgentError::Validation { command: command.to_owned() })
    }
}

/// Milliseconds to wait after running a command: longer for page-navigating
/// commands (`:open`, `:back`, `:reload` prefixes), shorter for the rest.
pub fn command_delay_ms(command: &str) -> (r: u64)
    ensures
        r == spec_command_delay(command@),
{
    if str_starts_with(command, ":open") || str_starts_with(command, ":back")
        || str_starts_with(command, ":reload") {
        NAV_DELAY_MS
    } else {
        DEFAULT_DELAY_MS
    }
}

/// For a command that carries the `:` prefix, the delay class is decided by
/// what follows the prefix: `open`, `back` or `reload` wait the longer
/// delay, everything else the shorter one.
pub proof fn lemma_delay_by_suffix(s: Seq<char>)
    requires
        command_accepted(s),
    ensures
        spec_command_delay(s) == NAV_DELAY_MS <==> (starts_with_spec(s.drop_first(), "open"@)
            || starts_with_spec(s.drop_first(), "back"@) || starts_with_spec(
            s.drop_first(),
            "reload"@,
        )),
        spec_command_delay(s) == DEFAULT_DELAY_MS <==> !(starts_with_spec(
            s.drop_first(),
            "open"@,
        ) || starts_with_spec(s.drop_first(), "back"@) || starts_with_spec(
            s.drop_first(),
            "reload"@,
        )),
{
    reveal_strlit(":open");
    reveal_strlit(":back");
    reveal_strlit(":reload");
    reveal_strlit("open");
    reveal_strlit("back");
    reveal_strlit("reload");
    lemma_prefix_shift(s, ":open"@, "open"@);
    lemma_prefix_shift(s, ":back"@, "back"@);
    lemma_prefix_shift(s, ":reload"@, "reload"@);
}

/// Dropping the shared leading `:` from the string and from a prefix keeps
/// the prefix relation.
proof fn lemma_prefix_shift(s: Seq<char>, p: Seq<char>, q: Seq<char>)
    requires
        s.len() > 0,
        s[0] == ':',
        p.len() == q.len() + 1,
        p[0] == ':',
        p.drop_first() =~= q,
    ensures
        starts_with_spec(s, p) <==> starts_with_spec(s.drop_first(), q),
{
    if starts_with_spec(s, p) {
        assert(s.drop_first().subrange(0, q.len() as int) =~= q) by {
            assert forall|i: int| 0 <= i < q.len() implies s.drop_first().subrange(
                0,
                q.len() as int,
            )[i] == q[i] by {
                assert(s.drop_first().subrange(0, q.len() as int)[i] == s[i + 1]);
                assert(s.subrange(0, p.len() as int)[i + 1] == s[i + 1]);
                assert(q[i] == p[i + 1]);
            }
        }
    }
    if starts_with_spec(s.drop_first(), q) {
        assert(s.subrange(0, p.len() as int) =~= p) by {
            assert forall|i: int| 0 <= i < p.len() implies s.subrange(0, p.len() as int)[i]
                == p[i] by {
                if i == 0 {
                    assert(s[0] == ':' && p[0] == ':');
                } else {
                    assert(s.subrange(0, p.len() as int)[i] == s.drop_first()[i - 1]);
                    assert(s.drop_first().subrange(0, q.len() as int)[i - 1] == s.drop_first()[i
                        - 1]);
                    assert(q[i - 1] == p[i]);
                }
            }
        }
    }
}

/// The normal form handed to the browser: one `:`, then the command with
/// its leading run of `:` removed.
pub fn normalize_command(command: &str) -> (r: String)
    ensures
        r@ == seq![':'] + drop_leading_colons(command@),
{
    let n = command.unicode_len();
    proof {
        assert(command@.subrange(0, n as int) =~= command@);
    }
    let mut i: usize = 0;
    while i < n && command.get_char(i) == ':'
        invariant
            n == command@.len(),
            i <= n,
            drop_leading_colons(command@) == drop_leading_colons(
                command@.subrange(i as int, n as int),
            ),
        decreases n - i,
    {
        proof {
            let cur = command@.subrange(i as int, n as int);
            assert(cur.len() > 0 && cur[0] == ':');
            assert(cur.drop_first() =~= command@.subrange(i + 1, n as int));
        }
        i += 1;
    }
    proof {
        let cur = command@.subrange(i as int, n as int);
        if i < n {
            assert(cur[0] != ':');
        }
        assert(drop_leading_colons(cur) == cur);
    }
    let mut r = String::from_str(":");
    r.append(command.substring_char(i, n));
    proof {
        reveal_strlit(":");
        assert(":"@ =~= seq![':']);
    }
    r
}

/// The browser process manager: where the browser's configuration lives and
/// which platform conventions apply. The fields drive the arguments and
/// environment of the processes the host application spawns.
#[derive(Debug, Clone)]
pub struct QutebrowserManager {
    pub base_dir: String,
    pub is_macos: bool,
    pub is_containerized: bool,
}

impl QutebrowserManager {
    /// Chooses the configuration directory: the user's home configuration
    /// on macOS (with a fixed fallback when no home is known), a fixed
    /// container path elsewhere.
    pub fn new(is_macos: bool, is_containerized: bool, home: Option<String>) -> (m: Self)
        ensures
            m.is_macos == is_macos,
            m.is_containerized == is_containerized,
            is_macos ==> match home {
                Some(h) => m.base_dir@ == h@ + "/.config/qutebrowser"@,
                None => m.base_dir@ == "/Users/$(whoami)/.config/qutebrowser"@,
            },
            !is_macos ==> m.base_dir@ == "/config/.config/qutebrowser"@,
    {
        let base_dir = if is_macos {
            match home {
                Some(h) => {
                    let mut b = h;
                    b.append("/.config/qutebrowser");
                    b
                },
                None => String::from_str("/Users/$(whoami)/.config/qutebrowser"),
            }
        } else {
            String::from_str("/config/.config/qutebrowser")
        };
        Self { base_dir, is_macos, is_containerized }
    }

    /// The arguments the browser is launched with: none on macOS, the
    /// configuration directory and the untrusted-arguments flag elsewhere.
    pub fn launch_args(&self) -> (r: Vec<String>)
        ensures
            self.is_macos ==> r@.len() == 0,
            !self.is_macos ==> r@.len() == 3 && r@[0]@ == "--basedir"@ && r@[1]@
                == self.base_dir@ && r@[2]@ == "--untrusted-args"@,
    {
        let mut args: Vec<String> = Vec::new();
        if !self.is_macos {
            args.push(String::from_str("--basedir"));
            args.push(self.base_dir.clone());
            args.push(String::from_str("--untrusted-args"));
        }
        args
    }

    /// The environment handed to the launched browser: a fixed virtual
    /// display inside a container, the host's display (when known)
    /// otherwise, nothing on macOS.
    pub fn launch_env(&self, display: Option<String>) -> (r: Vec<(String, String)>)
        ensures
            self.is_macos ==> r@.len() == 0,
            !self.is_macos && self.is_containerized ==> r@.len() == 2 && r@[0].0@ == "DISPLAY"@
                && r@[0].1@ == ":1"@ && r@[1].0@ == "XDG_RUNTIME_DIR"@ && r@[1].1@
                == "/tmp/runtime-root"@,
            !self.is_macos && !self.is_containerized ==> match display {
                Some(d) => r@.len() == 1 && r@[0].0@ == "DISPLAY"@ && r@[0].1@ == d@,
                None => r@.len() == 0,
            },
    {
        let mut env: Vec<(String, String)> = Vec::new();
        if !self.is_macos {
            if self.is_containerized {
                env.push((String::from_str("DISPLAY"), String::from_str(":1")));
                env.push((
                    String::from_str("XDG_RUNTIME_DIR"),
                    String::from_str("/tmp/runtime-root"),
                ));
            } else {
                match display {
                    Some(d) => {
                        env.push((String::from_str("DISPLAY"), d));
                    },
                    None => {},
                }
            }
        }
        env
    }

    /// The working directory of the launched browser: fixed inside a
    /// container, unset otherwise.
    pub fn launch_current_dir(&self) -> (r: Option<String>)
        ensures
            match r {
                Some(d) => !self.is_macos && self.is_containerized && d@ == "/config"@,
                None => self.is_macos || !self.is_containerized,
            },
    {
        if !self.is_macos && self.is_containerized {
            Some(String::from_str("/config"))
        } else {
            None
        }
    }

    /// The capture utility and its arguments: `screencapture -x` on macOS,
    /// `scrot -z` elsewhere, both writing to the fixed temporary path.
    pub fn screenshot_invocation(&self) -> (r: (String, Vec<String>))
        ensures
            self.is_macos ==> r.0@ == "screencapture"@ && r.1@.len() == 2 && r.1@[0]@ == "-x"@
                && r.1@[1]@ == "/tmp/screenshot.png"@,
            !self.is_macos ==> r.0@ == "scrot"@ && r.1@.len() == 2 && r.1@[0]@ == "-z"@
                && r.1@[1]@ == "/tmp/screenshot.png"@,
    {
        let mut args: Vec<String> = Vec::new();
        if self.is_macos {
            args.push(String::from_str("-x"));
            args.push(String::from_str("/tmp/screenshot.png"));
            (String::from_str("screencapture"), args)
        } else {
            args.push(String::from_str("-z"));
            args.push(String::from_str("/tmp/screenshot.png"));
            (String::from_str("scrot"), args)
        }
    }

    /// The fixed temporary path the capture utility writes to.
    pub fn screenshot_temp_path(&self) -> (r: String)
        ensures
            r@ == "/tmp/screenshot.png"@,
    {
        String::from_str("/tmp/screenshot.png")
    }
}

} // verus!
