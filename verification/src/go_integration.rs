//! The backend integration: bookkeeping and decisions around the external
//! migration process.
//!
//! The process itself runs outside this crate; every function here takes
//! the outcome of such a run as a plain value (`ExecOutcome`) and is
//! verified for every outcome the runtime could hand in. Payloads travel
//! as structured argument vectors or over standard input, never spliced
//! into a command line.

use vstd::prelude::*;

use crate::ServiceError;
use crate::json::push_char;
use crate::product::ProductData;
use crate::product::batch_json;
use crate::product::batch_json_body;
use vstd::string::StringExecFns;

verus! {

/// The outcome of one run of the backend process, as the runtime observed
/// it: an exit code, or a failure to run the process at all.
#[derive(Debug, Clone, Copy, PartialEq, Eq, Structural)]
pub enum ExecOutcome {
    /// The process ran and exited with this code.
    Exited(i32),
    /// The process could not be spawned or did not produce an exit code.
    SpawnFailed,
}

/// A point-in-time snapshot of the backend integration statistics.
#[derive(Debug, Clone)]
pub struct GoStats {
    /// Migrations the backend acknowledged.
    pub successful_inserts: u64,
    /// Migrations that failed or were rejected.
    pub failed_inserts: u64,
    /// Batch operations issued.
    pub batch_operations: u64,
    /// Calls made into the backend.
    pub go_calls: u64,
    /// Path of the backend executable.
    pub go_binary_path: String,
    /// Working directory the backend runs in.
    pub working_directory: String,
    /// Whether the integration finished its setup.
    pub is_initialized: bool,
}

/// The sequence a character contributes to a singly-quoted shell word:
/// a quote is closed, escaped and reopened; everything else stands as is.
pub open spec fn shell_escape_char(c: char) -> Seq<char> {
    if c == '\'' {
        seq!['\'', '"', '\'', '"', '\'']
    } else {
        seq![c]
    }
}

/// The shell escape of a whole character sequence.
pub open spec fn shell_escaped(s: Seq<char>) -> Seq<char>
    decreases s.len(),
{
    if s.len() == 0 {
        Seq::empty()
    } else {
        shell_escaped(s.drop_last()) + shell_escape_char(s.last())
    }
}

/// The needle occurs somewhere in the haystack.
pub open spec fn contains_seq(hay: Seq<char>, needle: Seq<char>) -> bool {
    exists|i: int|
        0 <= i <= hay.len() - needle.len() && #[trigger] hay.subrange(i, i + needle.len() as int)
            == needle
}

/// Whether the needle matches the haystack at one given position.
fn matches_at(hay: &str, i: usize, needle: &str) -> (r: bool)
    requires
        i + needle@.len() <= hay@.len(),
    ensures
        r == (hay@.subrange(i as int, i as int + needle@.len() as int) == needle@),
{
    let n = hay.unicode_len();
    let m = needle.unicode_len();
    let ghost piece = hay@.subrange(i as int, i as int + m as int);
    let mut j: usize = 0;
    while j < m
        invariant
            n == hay@.len(),
            m == needle@.len(),
            i + m <= n,
            j <= m,
            piece == hay@.subrange(i as int, i as int + m as int),
            forall|u: int| 0 <= u < j ==> hay@[i + u] == needle@[u],
        decreases m - j,
    {
        if hay.get_char(i + j) != needle.get_char(j) {
            proof {
                assert(piece[j as int] == hay@[i + j]);
            }
            return false;
        }
        j = j + 1;
    }
    proof {
        assert(piece =~= needle@);
    }
    true
}

/// Whether the needle occurs anywhere in the haystack.
fn contains_str(hay: &str, needle: &str) -> (r: bool)
    ensures
        r == contains_seq(hay@, needle@),
{
    let n = hay.unicode_len();
    let m = needle.unicode_len();
    if m > n {
        return false;
    }
    if m == 0 {
        proof {
            assert(hay@.subrange(0, 0 + needle@.len() as int) =~= needle@);
        }
        return true;
    }
    let mut i: usize = 0;
    while i <= n - m
        invariant
            n == hay@.len(),
            m == needle@.len(),
            1 <= m <= n,
            i <= n - m + 1,
            forall|t: int|
                0 <= t < i ==> #[trigger] hay@.subrange(t, t + m as int) != needle@,
        decreases n - m + 1 - i,
    {
        if matches_at(hay, i, needle) {
            return true;
        }
        i = i + 1;
    }
    false
}

/// The backend integration: where the external process lives, and the
/// cumulative statistics of the calls made into it.
pub struct GoIntegration {
    /// Path of the backend executable.
    pub go_supabase_binary: String,
    /// Working directory the backend runs in.
    pub go_working_directory: String,
    /// Migrations the backend acknowledged.
    pub successful_inserts: u64,
    /// Migrations that failed or were rejected.
    pub failed_inserts: u64,
    /// Batch operations issued.
    pub batch_operations: u64,
    /// Calls made into the backend.
    pub go_calls: u64,
    /// Whether the integration finished its setup.
    pub is_initialized: bool,
}

impl GoIntegration {
    /// The statistics counters have room for one more step.
    pub open spec fn counters_have_room(self) -> bool {
        &&& self.go_calls < u64::MAX
        &&& self.successful_inserts < u64::MAX
        &&& self.failed_inserts < u64::MAX
    }

    /// Creates an integration with empty paths, zeroed statistics, and
    /// setup not yet done.
    pub fn new() -> (g: GoIntegration)
        ensures
            g.go_supabase_binary@ == Seq::<char>::empty(),
            g.go_working_directory@ == Seq::<char>::empty(),
            g.successful_inserts == 0,
            g.failed_inserts == 0,
            g.batch_operations == 0,
            g.go_calls == 0,
            !g.is_initialized,
    {
        GoIntegration {
            go_supabase_binary: String::new(),
            go_working_directory: String::new(),
            successful_inserts: 0,
            failed_inserts: 0,
            batch_operations: 0,
            go_calls: 0,
            is_initialized: false,
        }
    }

    /// Finishes setup from the two diagnostics the runtime ran: whether the
    /// backend executable answered a version probe, and whether the
    /// component verification passed. The conventional paths are stamped
    /// either way; the integration counts as initialized only when both
    /// diagnostics passed (or an earlier setup already succeeded).
    pub fn initialize(&mut self, binary_ok: bool, component_ok: bool) -> (r: bool)
        ensures
            r == (binary_ok && component_ok),
            final(self).is_initialized == (r || old(self).is_initialized),
            final(self).go_supabase_binary@ == "go-supabase/main"@,
            final(self).go_working_directory@ == "go-supabase"@,
            final(self).successful_inserts == old(self).successful_inserts,
            final(self).failed_inserts == old(self).failed_inserts,
            final(self).batch_operations == old(self).batch_operations,
            final(self).go_calls == old(self).go_calls,
    {
        self.go_supabase_binary = "go-supabase/main".to_owned();
        self.go_working_directory = "go-supabase".to_owned();
        if !binary_ok {
            return false;
        }
        if !component_ok {
            return false;
        }
        self.is_initialized = true;
        true
    }

    /// Books one migration attempt: the backend's exit code decides between
    /// an acknowledged migration (`Ok(true)`), a rejected one (`Ok(false)`)
    /// and a backend error; before setup, the call is refused untouched.
    pub fn migrate_product(&mut self, exec: &ExecOutcome) -> (r: Result<bool, ServiceError>)
        requires
            old(self).counters_have_room(),
        ensures
            !old(self).is_initialized ==> r == Err::<bool, ServiceError>(
                ServiceError::NotInitialized,
            ) && *final(self) == *old(self),
            old(self).is_initialized ==> {
                &&& final(self).go_calls == old(self).go_calls + 1
                &&& final(self).is_initialized
                &&& final(self).batch_operations == old(self).batch_operations
                &&& final(self).go_supabase_binary == old(self).go_supabase_binary
                &&& final(self).go_working_directory == old(self).go_working_directory
                &&& match *exec {
                    ExecOutcome::Exited(code) => if code == 0 {
                        &&& r == Ok::<bool, ServiceError>(true)
                        &&& final(self).successful_inserts == old(self).successful_inserts + 1
                        &&& final(self).failed_inserts == old(self).failed_inserts
                    } else {
                        &&& r == Ok::<bool, ServiceError>(false)
                        &&& final(self).successful_inserts == old(self).successful_inserts
                        &&& final(self).failed_inserts == old(self).failed_inserts + 1
                    },
                    ExecOutcome::SpawnFailed => {
                        &&& r == Err::<bool, ServiceError>(ServiceError::BackendError)
                        &&& final(self).successful_inserts == old(self).successful_inserts
                        &&& final(self).failed_inserts == old(self).failed_inserts + 1
                    },
                }
            },
    {
        if !self.is_initialized {
            return Err(ServiceError::NotInitialized);
        }
        self.go_calls = self.go_calls + 1;
        match exec {
            ExecOutcome::Exited(code) => {
                if *code == 0 {
                    self.successful_inserts = self.successful_inserts + 1;
                    Ok(true)
                } else {
                    self.failed_inserts = self.failed_inserts + 1;
                    Ok(false)
                }
            },
            ExecOutcome::SpawnFailed => {
                self.failed_inserts = self.failed_inserts + 1;
                Err(ServiceError::BackendError)
            },
        }
    }

    /// Books one fetch of approved records. The records the runtime parsed
    /// from the backend's output are handed through on a clean exit;
    /// a failing exit or a failed spawn is reported as the backend being
    /// unavailable; before setup, the call is refused untouched.
    pub fn get_accepted_products(&mut self, exec: &ExecOutcome, records: Vec<ProductData>) -> (r:
        Result<Vec<ProductData>, ServiceError>)
        requires
            old(self).go_calls < u64::MAX,
        ensures
            !old(self).is_initialized ==> (r matches Err(e) && e == ServiceError::NotInitialized)
                && *final(self) == *old(self),
            old(self).is_initialized ==> {
                &&& final(self).go_calls == old(self).go_calls + 1
                &&& final(self).is_initialized
                &&& final(self).successful_inserts == old(self).successful_inserts
                &&& final(self).failed_inserts == old(self).failed_inserts
                &&& final(self).batch_operations == old(self).batch_operations
                &&& final(self).go_supabase_binary == old(self).go_supabase_binary
                &&& final(self).go_working_directory == old(self).go_working_directory
                &&& match *exec {
                    ExecOutcome::Exited(code) => if code == 0 {
                        r matches Ok(v) && v == records
                    } else {
                        r matches Err(e) && e == ServiceError::BackendUnavailable
                    },
                    ExecOutcome::SpawnFailed => (r matches Err(e) && e
                        == ServiceError::BackendUnavailable),
                }
            },
    {
        if !self.is_initialized {
            return Err(ServiceError::NotInitialized);
        }
        self.go_calls = self.go_calls + 1;
        match exec {
            ExecOutcome::Exited(code) => {
                if *code == 0 {
                    Ok(records)
                } else {
                    Err(ServiceError::BackendUnavailable)
                }
            },
            ExecOutcome::SpawnFailed => Err(ServiceError::BackendUnavailable),
        }
    }

    /// Books one existence check of a product: a clean exit means the
    /// product exists; a failed spawn means the backend was unreachable;
    /// before setup, the call is refused untouched.
    pub fn check_product_exists(&mut self, exec: &ExecOutcome) -> (r: Result<bool, ServiceError>)
        requires
            old(self).go_calls < u64::MAX,
        ensures
            !old(self).is_initialized ==> r == Err::<bool, ServiceError>(
                ServiceError::NotInitialized,
            ) && *final(self) == *old(self),
            old(self).is_initialized ==> {
                &&& final(self).go_calls == old(self).go_calls + 1
                &&& final(self).is_initialized
                &&& final(self).successful_inserts == old(self).successful_inserts
                &&& final(self).failed_inserts == old(self).failed_inserts
                &&& final(self).batch_operations == old(self).batch_operations
                &&& final(self).go_supabase_binary == old(self).go_supabase_binary
                &&& final(self).go_working_directory == old(self).go_working_directory
                &&& match *exec {
                    ExecOutcome::Exited(code) => r == Ok::<bool, ServiceError>(code == 0),
                    ExecOutcome::SpawnFailed => r == Err::<bool, ServiceError>(
                        ServiceError::BackendUnavailable,
                    ),
                }
            },
    {
        if !self.is_initialized {
            return Err(ServiceError::NotInitialized);
        }
        self.go_calls = self.go_calls + 1;
        match exec {
            ExecOutcome::Exited(code) => Ok(*code == 0),
            ExecOutcome::SpawnFailed => Err(ServiceError::BackendUnavailable),
        }
    }

    /// Books one existence check of a brand, with the same reading of the
    /// outcome as the product check.
    pub fn check_brand_exists(&mut self, exec: &ExecOutcome) -> (r: Result<bool, ServiceError>)
        requires
            old(self).go_calls < u64::MAX,
        ensures
            !old(self).is_initialized ==> r == Err::<bool, ServiceError>(
                ServiceError::NotInitialized,
            ) && *final(self) == *old(self),
            old(self).is_initialized ==> {
                &&& final(self).go_calls == old(self).go_calls + 1
                &&& final(self).is_initialized
                &&& final(self).successful_inserts == old(self).successful_inserts
                &&& final(self).failed_inserts == old(self).failed_inserts
                &&& final(self).batch_operations == old(self).batch_operations
                &&& final(self).go_supabase_binary == old(self).go_supabase_binary
                &&& final(self).go_working_directory == old(self).go_working_directory
                &&& match *exec {
                    ExecOutcome::Exited(code) => r == Ok::<bool, ServiceError>(code == 0),
                    ExecOutcome::SpawnFailed => r == Err::<bool, ServiceError>(
                        ServiceError::BackendUnavailable,
                    ),
                }
            },
    {
        if !self.is_initialized {
            return Err(ServiceError::NotInitialized);
        }
        self.go_calls = self.go_calls + 1;
        match exec {
            ExecOutcome::Exited(code) => Ok(*code == 0),
            ExecOutcome::SpawnFailed => Err(ServiceError::BackendUnavailable),
        }
    }

    /// Reads a verification run of the backend component: only a clean exit
    /// counts as working. Verification touches no counter.
    pub fn verify_go_component(&self, exec: &ExecOutcome) -> (r: bool)
        ensures
            r == (*exec == ExecOutcome::Exited(0)),
    {
        match exec {
            ExecOutcome::Exited(code) => *code == 0,
            ExecOutcome::SpawnFailed => false,
        }
    }

    /// Snapshots the statistics.
    pub fn get_go_stats(&self) -> (s: GoStats)
        ensures
            s.successful_inserts == self.successful_inserts,
            s.failed_inserts == self.failed_inserts,
            s.batch_operations == self.batch_operations,
            s.go_calls == self.go_calls,
            s.go_binary_path@ == self.go_supabase_binary@,
            s.working_directory@ == self.go_working_directory@,
            s.is_initialized == self.is_initialized,
    {
        GoStats {
            successful_inserts: self.successful_inserts,
            failed_inserts: self.failed_inserts,
            batch_operations: self.batch_operations,
            go_calls: self.go_calls,
            go_binary_path: self.go_supabase_binary.clone(),
            working_directory: self.go_working_directory.clone(),
            is_initialized: self.is_initialized,
        }
    }

    /// Shuts the integration down: setup is undone, nothing else moves.
    pub fn shutdown(&mut self) -> (r: Result<(), ServiceError>)
        ensures
            r == Ok::<(), ServiceError>(()),
            !final(self).is_initialized,
            final(self).go_supabase_binary == old(self).go_supabase_binary,
            final(self).go_working_directory == old(self).go_working_directory,
            final(self).successful_inserts == old(self).successful_inserts,
            final(self).failed_inserts == old(self).failed_inserts,
            final(self).batch_operations == old(self).batch_operations,
            final(self).go_calls == old(self).go_calls,
    {
        self.is_initialized = false;
        Ok(())
    }

    /// Whether a backend response text reports success: it mentions
    /// `success` or `ok` somewhere.
    pub fn parse_go_response(&self, response: &str) -> (r: bool)
        ensures
            r == (contains_seq(response@, "success"@) || contains_seq(response@, "ok"@)),
    {
        contains_str(response, "success") || contains_str(response, "ok")
    }

    /// Escapes a JSON document for embedding in a singly-quoted shell word.
    /// Kept for diagnostic use; payloads handed to the backend travel over
    /// standard input instead of a command line.
    pub fn escape_json_for_shell(&self, json: &str) -> (r: String)
        ensures
            r@ == shell_escaped(json@),
    {
        let n = json.unicode_len();
        let mut out = String::new();
        let mut i: usize = 0;
        while i < n
            invariant
                n == json@.len(),
                i <= n,
                out@ == shell_escaped(json@.subrange(0, i as int)),
            decreases n - i,
        {
            let c = json.get_char(i);
            if c == '\'' {
                out.append("'\"'\"'");
                proof {
                    reveal_strlit("'\"'\"'");
                    assert("'\"'\"'"@ =~= shell_escape_char('\''));
                }
            } else {
                push_char(&mut out, c);
            }
            proof {
                let pre = json@.subrange(0, i as int);
                let cur = json@.subrange(0, i + 1 as int);
                assert(cur.drop_last() =~= pre);
                assert(cur.last() == json@[i as int]);
                assert(out@ =~= shell_escaped(cur));
            }
            i = i + 1;
        }
        proof {
            assert(json@.subrange(0, n as int) =~= json@);
        }
        out
    }

    /// Renders a batch of records as one JSON array document.
    pub fn generate_batch_products_json(&self, products: &Vec<ProductData>) -> (r: String)
        ensures
            r@ == batch_json(products@),
    {
        let mut out = String::new();
        push_char(&mut out, '[');
        proof {
            assert(out@ =~= seq!['[']);
        }
        let n = products.len();
        let mut i: usize = 0;
        while i < n
            invariant
                n == products@.len(),
                i <= n,
                out@ == seq!['['] + batch_json_body(products@.subrange(0, i as int)),
            decreases n - i,
        {
            if i > 0 {
                push_char(&mut out, ',');
            }
            let piece = products[i].to_json();
            out.append(piece.as_str());
            proof {
                let pre = products@.subrange(0, i as int);
                let cur = products@.subrange(0, i + 1 as int);
                assert(cur.drop_last() =~= pre);
                assert(cur.last() == products@[i as int]);
                assert(out@ =~= seq!['['] + batch_json_body(cur));
            }
            i = i + 1;
        }
        push_char(&mut out, ']');
        proof {
            assert(products@.subrange(0, n as int) =~= products@);
            assert(out@ =~= batch_json(products@));
        }
        out
    }

    /// The argument vector for one product existence check: the subcommand,
    /// then each value behind its own flag, one argument each, never
    /// spliced into a command line.
    pub fn check_product_args(&self, name: &str, brand: &str, flavor: &str, year: &str) -> (r: Vec<
        String,
    >)
        ensures
            r@.len() == 9,
            r@[0]@ == "check-product"@,
            r@[1]@ == "--name"@,
            r@[2]@ == name@,
            r@[3]@ == "--brand"@,
            r@[4]@ == brand@,
            r@[5]@ == "--flavor"@,
            r@[6]@ == flavor@,
            r@[7]@ == "--year"@,
            r@[8]@ == year@,
    {
        let mut args: Vec<String> = Vec::new();
        args.push("check-product".to_owned());
        args.push("--name".to_owned());
        args.push(name.to_owned());
        args.push("--brand".to_owned());
        args.push(brand.to_owned());
        args.push("--flavor".to_owned());
        args.push(flavor.to_owned());
        args.push("--year".to_owned());
        args.push(year.to_owned());
        args
    }

    /// The argument vector for one brand existence check.
    pub fn check_brand_args(&self, brand_name: &str) -> (r: Vec<String>)
        ensures
            r@.len() == 3,
            r@[0]@ == "check-brand"@,
            r@[1]@ == "--name"@,
            r@[2]@ == brand_name@,
    {
        let mut args: Vec<String> = Vec::new();
        args.push("check-brand".to_owned());
        args.push("--name".to_owned());
        args.push(brand_name.to_owned());
        args
    }
}

} // verus!
