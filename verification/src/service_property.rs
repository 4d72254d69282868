//! The detailed property record fetched for one unit, and the formatting of
//! its exec-command and timestamp fields for display.

use vstd::prelude::*;
use vstd::string::StringExecFns;

verus! {

/// One exec command of a unit, as the protocol reports it: the executable,
/// its argument vector, and the bookkeeping of its last run.
pub struct ExecCommand {
    pub path: String,
    pub args: Vec<String>,
    pub ignore_exit_status: bool,
    pub start_timestamp: u64,
    pub exit_timestamp: u64,
    pub pid: u64,
    pub exit_code: u64,
    pub exit_status: u32,
    pub user_id: i32,
    pub group_id: i32,
}

/// `parts` joined with `sep` between consecutive parts.
pub open spec fn join_texts(parts: Seq<Seq<char>>, sep: Seq<char>) -> Seq<char>
    decreases parts.len(),
{
    if parts.len() == 0 {
        Seq::empty()
    } else if parts.len() == 1 {
        parts[0]
    } else {
        parts[0] + sep + join_texts(parts.drop_first(), sep)
    }
}

/// Joining grows at the back one part at a time.
proof fn lemma_join_push(parts: Seq<Seq<char>>, sep: Seq<char>, x: Seq<char>)
    ensures
        join_texts(parts.push(x), sep) == if parts.len() == 0 {
            x
        } else {
            join_texts(parts, sep) + sep + x
        },
    decreases parts.len(),
{
    let p = parts.push(x);
    if parts.len() == 0 {
        assert(p.len() == 1);
        assert(p[0] == x);
    } else {
        assert(p[0] == parts[0]);
        assert(p.drop_first() =~= parts.drop_first().push(x));
        lemma_join_push(parts.drop_first(), sep, x);
        if parts.len() == 1 {
            assert(parts.drop_first().len() == 0);
            assert(join_texts(p, sep) == parts[0] + sep + x);
            assert(join_texts(parts, sep) == parts[0]);
        } else {
            assert(join_texts(p, sep) == parts[0] + sep + (join_texts(parts.drop_first(), sep)
                + sep + x));
            assert(join_texts(parts, sep) + sep + x == (parts[0] + sep + join_texts(
                parts.drop_first(),
                sep,
            )) + sep + x);
            assert(parts[0] + sep + (join_texts(parts.drop_first(), sep) + sep + x) =~= (parts[0]
                + sep + join_texts(parts.drop_first(), sep)) + sep + x);
        }
    }
}

/// One exec command rendered for display: its arguments joined by spaces.
pub open spec fn command_text(c: ExecCommand) -> Seq<char> {
    join_texts(c.args@.map_values(|a: String| a@), " "@)
}

/// A whole exec field rendered for display: one line per command.
pub open spec fn exec_field_text(cmds: Seq<ExecCommand>) -> Seq<char> {
    join_texts(cmds.map_values(|c: ExecCommand| command_text(c)), "\n"@)
}

/// `parts` joined with `sep`, executable form.
fn join_strings(parts: &Vec<String>, sep: &str) -> (r: String)
    ensures
        r@ == join_texts(parts@.map_values(|a: String| a@), sep@),
{
    let ghost views = parts@.map_values(|a: String| a@);
    let mut out = String::new();
    let n = parts.len();
    let mut i: usize = 0;
    proof {
        assert(views.take(0) =~= Seq::<Seq<char>>::empty());
    }
    while i < n
        invariant
            0 <= i <= n,
            n == parts@.len(),
            views == parts@.map_values(|a: String| a@),
            views.len() == n,
            out@ == join_texts(views.take(i as int), sep@),
        decreases n - i,
    {
        proof {
            assert(views.take(i + 1) =~= views.take(i as int).push(views[i as int]));
            assert(views[i as int] == parts@[i as int]@);
            lemma_join_push(views.take(i as int), sep@, views[i as int]);
        }
        if i > 0 {
            out.append(sep);
        }
        out.append(parts[i].as_str());
        proof {
            assert(views.take(i as int).len() == i);
        }
        i = i + 1;
    }
    proof {
        assert(views.take(n as int) =~= views);
    }
    out
}

/// What the timestamp-rendering of the date library prints for a given
/// second count; a fixed calendar rendering, depending on the value alone.
pub uninterp spec fn timestamp_text(timestamp: u64) -> Seq<char>;

/// Renders a Unix timestamp as a calendar date and time.
/// Relies on `chrono::DateTime::from_timestamp` and `format`: the rendering
/// is of the UTC calendar, a function of the timestamp alone.
#[verifier::external_body]
fn render_timestamp(timestamp: u64) -> (r: String)
    ensures
        r@ == timestamp_text(timestamp),
{
    match chrono::DateTime::from_timestamp(timestamp as i64, 0) {
        Some(dt) => dt.format("%Y-%m-%d %H:%M:%S").to_string(),
        None => String::new(),
    }
}

/// Everything the details view shows about one unit.
pub struct ServiceProperty {
    pub exec_start: Vec<ExecCommand>,
    pub exec_start_pre: Vec<ExecCommand>,
    pub exec_start_post: Vec<ExecCommand>,
    pub exec_stop: Vec<ExecCommand>,
    pub exec_stop_post: Vec<ExecCommand>,
    pub exec_main_pid: u32,
    pub exec_main_start_timestamp: u64,
    pub exec_main_exit_timestamp: u64,
    pub exec_main_code: i32,
    pub exec_main_status: i32,
    pub main_pid: u32,
    pub control_pid: u32,
    pub restart: String,
    pub restart_usec: u64,
    pub status_text: String,
    pub result: String,
    pub user: String,
    pub group: String,
    pub limit_cpu: u64,
    pub limit_nofile: u64,
    pub limit_nproc: u64,
    pub limit_memlock: u64,
    pub memory_limit: u64,
    pub cpu_shares: u64,
}

impl ServiceProperty {
    pub fn new(
        exec_start: Vec<ExecCommand>,
        exec_start_pre: Vec<ExecCommand>,
        exec_start_post: Vec<ExecCommand>,
        exec_stop: Vec<ExecCommand>,
        exec_stop_post: Vec<ExecCommand>,
        exec_main_pid: u32,
        exec_main_start_timestamp: u64,
        exec_main_exit_timestamp: u64,
        exec_main_code: i32,
        exec_main_status: i32,
        main_pid: u32,
        control_pid: u32,
        restart: String,
        restart_usec: u64,
        status_text: String,
        result: String,
        user: String,
        group: String,
        limit_cpu: u64,
        limit_nofile: u64,
        limit_nproc: u64,
        limit_memlock: u64,
        memory_limit: u64,
        cpu_shares: u64,
    ) -> (r: ServiceProperty)
        ensures
            r == (ServiceProperty {
                exec_start,
                exec_start_pre,
                exec_start_post,
                exec_stop,
                exec_stop_post,
                exec_main_pid,
                exec_main_start_timestamp,
                exec_main_exit_timestamp,
                exec_main_code,
                exec_main_status,
                main_pid,
                control_pid,
                restart,
                restart_usec,
                status_text,
                result,
                user,
                group,
                limit_cpu,
                limit_nofile,
                limit_nproc,
                limit_memlock,
                memory_limit,
                cpu_shares,
            }),
    {
        ServiceProperty {
            exec_start,
            exec_start_pre,
            exec_start_post,
            exec_stop,
            exec_stop_post,
            exec_main_pid,
            exec_main_start_timestamp,
            exec_main_exit_timestamp,
            exec_main_code,
            exec_main_status,
            main_pid,
            control_pid,
            restart,
            restart_usec,
            status_text,
            result,
            user,
            group,
            limit_cpu,
            limit_nofile,
            limit_nproc,
            limit_memlock,
            memory_limit,
            cpu_shares,
        }
    }

    /// One exec field rendered for display: each command's arguments joined
    /// by spaces, commands separated by line breaks.
    fn format_exec_field(&self, field: &Vec<ExecCommand>) -> (r: String)
        ensures
            r@ == exec_field_text(field@),
    {
        let ghost lines = field@.map_values(|c: ExecCommand| command_text(c));
        let mut out = String::new();
        let n = field.len();
        let mut i: usize = 0;
        proof {
            assert(lines.take(0) =~= Seq::<Seq<char>>::empty());
        }
        while i < n
            invariant
                0 <= i <= n,
                n == field@.len(),
                lines == field@.map_values(|c: ExecCommand| command_text(c)),
                lines.len() == n,
                out@ == join_texts(lines.take(i as int), "\n"@),
            decreases n - i,
        {
            proof {
                assert(lines.take(i + 1) =~= lines.take(i as int).push(lines[i as int]));
                assert(lines[i as int] == command_text(field@[i as int]));
                lemma_join_push(lines.take(i as int), "\n"@, lines[i as int]);
                assert(lines.take(i as int).len() == i);
            }
            let line = join_strings(&field[i].args, " ");
            if i > 0 {
                out.append("\n");
            }
            out.append(line.as_str());
            i = i + 1;
        }
        proof {
            assert(lines.take(n as int) =~= lines);
        }
        out
    }

    pub fn formatted_exec_start(&self) -> (r: String)
        ensures
            r@ == exec_field_text(self.exec_start@),
    {
        self.format_exec_field(&self.exec_start)
    }

    pub fn formatted_exec_start_pre(&self) -> (r: String)
        ensures
            r@ == exec_field_text(self.exec_start_pre@),
    {
        self.format_exec_field(&self.exec_start_pre)
    }

    pub fn formatted_exec_start_post(&self) -> (r: String)
        ensures
            r@ == exec_field_text(self.exec_start_post@),
    {
        self.format_exec_field(&self.exec_start_post)
    }

    pub fn formatted_exec_stop(&self) -> (r: String)
        ensures
            r@ == exec_field_text(self.exec_stop@),
    {
        self.format_exec_field(&self.exec_stop)
    }

    pub fn formatted_exec_stop_post(&self) -> (r: String)
        ensures
            r@ == exec_field_text(self.exec_stop_post@),
    {
        self.format_exec_field(&self.exec_stop_post)
    }

    /// Renders a microsecond-less Unix timestamp for the details view.
    pub fn format_timestamp(&self, timestamp: u64) -> (r: String)
        ensures
            r@ == timestamp_text(timestamp),
    {
        render_timestamp(timestamp)
    }

    pub fn exec_start(&self) -> (r: &Vec<ExecCommand>)
        ensures
            r == &self.exec_start,
    {
        &self.exec_start
    }

    pub fn exec_start_pre(&self) -> (r: &Vec<ExecCommand>)
        ensures
            r == &self.exec_start_pre,
    {
        &self.exec_start_pre
    }

    pub fn exec_start_post(&self) -> (r: &Vec<ExecCommand>)
        ensures
            r == &self.exec_start_post,
    {
        &self.exec_start_post
    }

    pub fn exec_stop(&self) -> (r: &Vec<ExecCommand>)
        ensures
            r == &self.exec_stop,
    {
        &self.exec_stop
    }

    pub fn exec_stop_post(&self) -> (r: &Vec<ExecCommand>)
        ensures
            r == &self.exec_stop_post,
    {
        &self.exec_stop_post
    }

    pub fn exec_main_pid(&self) -> (r: u32)
        ensures
            r == self.exec_main_pid,
    {
        self.exec_main_pid
    }

    pub fn exec_main_start_timestamp(&self) -> (r: u64)
        ensures
            r == self.exec_main_start_timestamp,
    {
        self.exec_main_start_timestamp
    }

    pub fn exec_main_exit_timestamp(&self) -> (r: u64)
        ensures
            r == self.exec_main_exit_timestamp,
    {
        self.exec_main_exit_timestamp
    }

    pub fn exec_main_code(&self) -> (r: i32)
        ensures
            r == self.exec_main_code,
    {
        self.exec_main_code
    }

    pub fn exec_main_status(&self) -> (r: i32)
        ensures
            r == self.exec_main_status,
    {
        self.exec_main_status
    }

    pub fn main_pid(&self) -> (r: u32)
        ensures
            r == self.main_pid,
    {
        self.main_pid
    }

    pub fn control_pid(&self) -> (r: u32)
        ensures
            r == self.control_pid,
    {
        self.control_pid
    }

    pub fn restart(&self) -> (r: &str)
        ensures
            r@ == self.restart@,
    {
        self.restart.as_str()
    }

    pub fn restart_usec(&self) -> (r: u64)
        ensures
            r == self.restart_usec,
    {
        self.restart_usec
    }

    pub fn status_text(&self) -> (r: &str)
        ensures
            r@ == self.status_text@,
    {
        self.status_text.as_str()
    }

    pub fn result(&self) -> (r: &str)
        ensures
            r@ == self.result@,
    {
        self.result.as_str()
    }

    pub fn user(&self) -> (r: &str)
        ensures
            r@ == self.user@,
    {
        self.user.as_str()
    }

    pub fn group(&self) -> (r: &str)
        ensures
            r@ == self.group@,
    {
        self.group.as_str()
    }

    pub fn limit_cpu(&self) -> (r: u64)
        ensures
            r == self.limit_cpu,
    {
        self.limit_cpu
    }

    pub fn limit_nofile(&self) -> (r: u64)
        ensures
            r == self.limit_nofile,
    {
        self.limit_nofile
    }

    pub fn limit_nproc(&self) -> (r: u64)
        ensures
            r == self.limit_nproc,
    {
        self.limit_nproc
    }

    pub fn limit_memlock(&self) -> (r: u64)
        ensures
            r == self.limit_memlock,
    {
        self.limit_memlock
    }

    pub fn memory_limit(&self) -> (r: u64)
        ensures
            r == self.memory_limit,
    {
        self.memory_limit
    }

    pub fn cpu_shares(&self) -> (r: u64)
        ensures
            r == self.cpu_shares,
    {
        self.cpu_shares
    }
}

} // verus!
