//! The configuration of the pool, and the pool's threads.

use crate::calls::{answer_to_both, answer_to_three};
use crate::text::{decimal, decimal_says_the_number, decimal_string};
use vstd::prelude::*;
use vstd::string::*;

verus! {

/// A pool of worker threads.
#[verifier::external_type_specification]
#[verifier::external_body]
pub struct ExThreadPool(rayon::ThreadPool);

/// Why a pool could not be made.
#[verifier::external_type_specification]
#[verifier::external_body]
pub struct ExThreadPoolBuildError(rayon::ThreadPoolBuildError);

/// The smallest stack that a worker thread may have, in bytes.
pub const MIN_STACK_SIZE: usize = 131_072;

/// The stack that a worker thread has by default, in bytes.
pub const DEFAULT_STACK_SIZE: usize = 2_097_152;

/// The configuration of the pool.
#[derive(Clone, Debug)]
pub struct ComputeConfig {
    /// The number of threads. Where it is not given, it follows from the number
    /// of cores.
    pub num_threads: Option<usize>,
    /// The stack of each thread, in bytes. Where it is not given, the
    /// platform's default is taken.
    pub stack_size: Option<usize>,
    /// What the name of each thread starts with.
    pub thread_prefix: String,
    /// Whether threads are to be pinned to cores.
    pub pin_threads: bool,
}

/// What is wrong with a configuration.
#[derive(Clone, Copy, Debug, PartialEq, Eq, Structural)]
pub enum ConfigError {
    /// No threads are asked for.
    NoThreads,
    /// The stack is below [`MIN_STACK_SIZE`]; its size in whole kilobytes.
    StackTooSmall { kilobytes: usize },
}

/// Why there is no pool.
#[derive(Debug)]
pub enum PoolError {
    /// The configuration is wrong.
    Config(ConfigError),
    /// The threads could not be started.
    Build(rayon::ThreadPoolBuildError),
}

impl ConfigError {
    /// The message for a reader.
    pub open spec fn text(self) -> Seq<char> {
        match self {
            ConfigError::NoThreads => {
                "Number of compute threads cannot be 0. Use None to disable compute pool entirely."@
            },
            ConfigError::StackTooSmall { kilobytes } => "Stack size too small: "@ + decimal(
                kilobytes as nat,
            ) + "KB. Minimum recommended: 128KB"@,
        }
    }

    /// The message for a reader.
    pub fn message(&self) -> (r: String)
        ensures
            r@ == self.text(),
    {
        match self {
            ConfigError::NoThreads => {
                "Number of compute threads cannot be 0. Use None to disable compute pool entirely.".to_owned()
            },
            ConfigError::StackTooSmall { kilobytes } => {
                let mut message = "Stack size too small: ".to_owned();
                message.append(decimal_string(*kilobytes).as_str());
                message.append("KB. Minimum recommended: 128KB");
                message
            },
        }
    }
}

impl Default for ComputeConfig {
    /// Threads by the number of cores, 2 MB of stack, and threads named
    /// `compute`, not pinned.
    fn default() -> (r: Self)
        ensures
            r.num_threads is None,
            r.stack_size == Some(DEFAULT_STACK_SIZE),
            r.thread_prefix@ == "compute"@,
            !r.pin_threads,
    {
        ComputeConfig {
            num_threads: None,
            stack_size: Some(DEFAULT_STACK_SIZE),
            thread_prefix: "compute".to_owned(),
            pin_threads: false,
        }
    }
}

/// The number of threads for a machine whose number of cores was found to be
/// `cores`: half of them, but at least 2, and 2 where the number is not known.
pub open spec fn threads_for(cores: Option<usize>) -> nat {
    match cores {
        Some(cores) => if cores / 2 < 2 {
            2
        } else {
            (cores / 2) as nat
        },
        None => 2,
    }
}

/// The largest number of threads that a pool can have.
pub open spec fn max_pool_threads() -> nat {
    if usize::BITS == 64 {
        65_535
    } else {
        255
    }
}

/// `n`, or the largest number of threads that a pool can have.
pub open spec fn pool_size(n: nat) -> nat {
    if n > max_pool_threads() {
        max_pool_threads()
    } else {
        n
    }
}

/// The name of a worker thread.
pub open spec fn worker_name_text(prefix: Seq<char>, index: nat) -> Seq<char> {
    prefix + "-"@ + decimal(index)
}

/// What a pool's threads were started with: the name of each of them, and their
/// stack in bytes, where it was given.
#[verifier::ext_equal]
pub ghost struct PoolThreads {
    pub names: Seq<Seq<char>>,
    pub stack_size: Option<usize>,
}

/// `n` threads, or as many as a pool can have, with numbered names.
pub open spec fn threads_of(n: nat, stack_size: Option<usize>, prefix: Seq<char>) -> PoolThreads {
    PoolThreads {
        names: Seq::new(pool_size(n), |i: int| worker_name_text(prefix, i as nat)),
        stack_size,
    }
}

/// The threads of a pool, which are fixed when it is made.
pub uninterp spec fn pool_threads(pool: rayon::ThreadPool) -> PoolThreads;

/// `rayon::ThreadPool::current_num_threads`: the number of threads that the
/// pool was made with.
pub assume_specification[ rayon::ThreadPool::current_num_threads ](pool: &rayon::ThreadPool) -> (r:
    usize)
    ensures
        r == pool_threads(*pool).names.len(),
;

/// The name of the worker thread `index`.
pub fn worker_name(prefix: &str, index: usize) -> (r: String)
    ensures
        r@ == worker_name_text(prefix@, index as nat),
{
    let mut name = prefix.to_owned();
    name.append("-");
    name.append(decimal_string(index).as_str());
    name
}

/// Starts a pool: `rayon::ThreadPoolBuilder` with `num_threads` and
/// `thread_name`, and `build`. A pool that starts has the number of threads
/// that was asked for, up to the largest possible, each named by its index.
/// Whether the threads can be started depends on the machine. A thread's name
/// must hold no null character.
#[verifier::external_body]
pub(crate) fn start_pool(num_threads: usize, prefix: String) -> (r: Result<
    rayon::ThreadPool,
    rayon::ThreadPoolBuildError,
>)
    requires
        num_threads > 0,
        !prefix@.contains('\0'),
    ensures
        r matches Ok(pool) ==> pool_threads(pool) == threads_of(num_threads as nat, None, prefix@),
{
    rayon::ThreadPoolBuilder::new()
        .num_threads(num_threads)
        .thread_name(move |index| worker_name(&prefix, index))
        .build()
}

/// Starts a pool whose threads have a stack of `stack_size` bytes: as
/// [`start_pool`], with `rayon::ThreadPoolBuilder::stack_size`.
#[verifier::external_body]
pub(crate) fn start_pool_with_stack(num_threads: usize, stack_size: usize, prefix: String) -> (r: Result<
    rayon::ThreadPool,
    rayon::ThreadPoolBuildError,
>)
    requires
        num_threads > 0,
        !prefix@.contains('\0'),
    ensures
        r matches Ok(pool) ==> pool_threads(pool) == threads_of(
            num_threads as nat,
            Some(stack_size),
            prefix@,
        ),
{
    rayon::ThreadPoolBuilder::new()
        .num_threads(num_threads)
        .stack_size(stack_size)
        .thread_name(move |index| worker_name(&prefix, index))
        .build()
}

/// Whether a pool may be answered with `answer` when it is started with these
/// threads: so many, with a stack of so many bytes, where it is given, and with
/// names that start with `prefix`.
pub closed spec fn may_start(
    num_threads: nat,
    stack_size: Option<usize>,
    prefix: Seq<char>,
    answer: Result<rayon::ThreadPool, rayon::ThreadPoolBuildError>,
) -> bool {
    exists|n: usize, text: String|
        {
            &&& n == num_threads
            &&& text@ == prefix
            &&& #[trigger] start_answers(n, stack_size, text, answer)
        }
}

/// Whether starting a pool may be answered with `answer`.
closed spec fn start_answers(
    num_threads: usize,
    stack_size: Option<usize>,
    prefix: String,
    answer: Result<rayon::ThreadPool, rayon::ThreadPoolBuildError>,
) -> bool {
    match stack_size {
        Some(stack_size) => start_pool_with_stack.ensures(
            (num_threads, stack_size, prefix),
            answer,
        ),
        None => start_pool.ensures((num_threads, prefix), answer),
    }
}

impl ComputeConfig {
    /// Whether starting the pool that the configuration asks for on a machine with
    /// `cores` cores may be answered with `answer`.
    pub open spec fn may_start(
        self,
        cores: Option<usize>,
        answer: Result<rayon::ThreadPool, rayon::ThreadPoolBuildError>,
    ) -> bool {
        may_start(self.threads(cores), self.stack_size, self.thread_prefix@, answer)
    }

    /// What is wrong with the configuration, the number of threads first.
    pub open spec fn problem(self) -> Option<ConfigError> {
        if self.num_threads == Some(0usize) {
            Some(ConfigError::NoThreads)
        } else {
            match self.stack_size {
                Some(stack_size) if stack_size < MIN_STACK_SIZE => Some(
                    ConfigError::StackTooSmall { kilobytes: (stack_size / 1024) as usize },
                ),
                _ => None,
            }
        }
    }

    /// The number of threads that the configuration asks for on a machine with
    /// `cores` cores.
    pub open spec fn threads(self, cores: Option<usize>) -> nat {
        match self.num_threads {
            Some(num_threads) => num_threads as nat,
            None => threads_for(cores),
        }
    }

    /// The threads of a pool that is made by this configuration on a machine
    /// with `cores` cores.
    pub open spec fn threads_on(self, cores: Option<usize>) -> PoolThreads {
        threads_of(self.threads(cores), self.stack_size, self.thread_prefix@)
    }

    /// Whether a pool can be named by this configuration.
    pub open spec fn nameable(self) -> bool {
        !self.thread_prefix@.contains('\0')
    }

    /// Checks the configuration.
    pub fn validate(&self) -> (r: Result<(), ConfigError>)
        ensures
            r == match self.problem() {
                Some(error) => Err(error),
                None => Ok(()),
            },
    {
        if let Some(num_threads) = self.num_threads {
            if num_threads == 0 {
                return Err(ConfigError::NoThreads);
            }
        }
        if let Some(stack_size) = self.stack_size {
            if stack_size < MIN_STACK_SIZE {
                return Err(ConfigError::StackTooSmall { kilobytes: stack_size / 1024 });
            }
        }
        Ok(())
    }

    /// The number of threads that the configuration asks for on a machine whose
    /// number of cores was found to be `cores`.
    pub fn thread_count(&self, cores: Option<usize>) -> (r: usize)
        ensures
            r == self.threads(cores),
    {
        match self.num_threads {
            Some(num_threads) => num_threads,
            None => match cores {
                Some(cores) => {
                    let half: usize = cores / 2;
                    if half < 2 {
                        2
                    } else {
                        half
                    }
                },
                None => 2,
            },
        }
    }

    /// Starts a pool by this configuration, on a machine whose number of cores
    /// was found to be `cores`. A wrong configuration starts none.
    pub fn build_pool(&self, cores: Option<usize>) -> (r: Result<rayon::ThreadPool, PoolError>)
        requires
            self.problem() is None ==> self.nameable(),
        ensures
            match self.problem() {
                Some(error) => r matches Err(PoolError::Config(e)) && e == error,
                None => match r {
                    Ok(pool) => {
                        &&& pool_threads(pool) == self.threads_on(cores)
                        &&& self.may_start(cores, Ok(pool))
                    },
                    Err(e) => e matches PoolError::Build(error) && self.may_start(
                        cores,
                        Err(error),
                    ),
                },
            },
    {
        if let Err(error) = self.validate() {
            return Err(PoolError::Config(error));
        }
        let num_threads: usize = self.thread_count(cores);
        let prefix = self.thread_prefix.clone();
        let started = match self.stack_size {
            Some(stack_size) => answer_to_three(
                start_pool_with_stack,
                num_threads,
                stack_size,
                prefix,
            ),
            None => answer_to_both(start_pool, num_threads, prefix),
        };
        assert(start_answers(num_threads, self.stack_size, prefix, started));
        match started {
            Ok(pool) => Ok(pool),
            Err(error) => Err(PoolError::Build(error)),
        }
    }
}

/// Whatever the machine, the default is at least 2 threads, so that the default
/// configuration is a right one; and with 4 cores or more it is half of them.
pub proof fn default_threads_are_half_the_cores(cores: usize)
    ensures
        threads_for(Some(cores)) >= 2,
        threads_for(None) == 2,
        cores >= 4 ==> threads_for(Some(cores)) == cores / 2,
{
}

/// More cores never give fewer threads.
pub proof fn more_cores_no_fewer_threads(fewer: usize, more: usize)
    requires
        fewer <= more,
    ensures
        threads_for(Some(fewer)) <= threads_for(Some(more)),
{
}

/// A number of threads that is given is taken as it is, whatever the machine.
/// Otherwise a machine with fewer than 4 cores, or whose cores are not known, has
/// 2, and any other has half its cores.
pub proof fn given_threads_are_taken(config: ComputeConfig, cores: Option<usize>)
    ensures
        config.num_threads matches Some(n) ==> config.threads(cores) == n,
        config.num_threads is None ==> match cores {
            None => config.threads(cores) == 2,
            Some(cores_found) => if cores_found < 4 {
                config.threads(cores) == 2
            } else {
                2 * config.threads(cores) <= cores_found < 2 * config.threads(cores) + 2
            },
        },
{
}

/// A configuration is wrong exactly where it asks for no threads or for a stack of
/// less than 128 KB. The threads are looked at first, and the stack is told in
/// whole kilobytes, rounded down.
pub proof fn wrong_configurations_are_told(config: ComputeConfig)
    ensures
        config.problem() is Some <==> config.num_threads == Some(0usize) || (
        config.stack_size matches Some(stack) && stack < 128 * 1024),
        config.num_threads == Some(0usize) ==> config.problem() == Some(ConfigError::NoThreads),
        config.num_threads != Some(0usize) ==> (config.problem() matches Some(problem) ==> (
        problem matches ConfigError::StackTooSmall { kilobytes } && kilobytes * 1024
            <= config.stack_size->Some_0 < (kilobytes + 1) * 1024)),
{
}

/// The bounds on the stack, in kilobytes.
pub proof fn stacks_in_kilobytes()
    ensures
        MIN_STACK_SIZE == 128 * 1024,
        DEFAULT_STACK_SIZE == 2 * 1024 * 1024,
{
}

/// What is told of a wrong configuration.
pub proof fn problems_have_their_message(kilobytes: usize)
    ensures
        ConfigError::NoThreads.text()
            == "Number of compute threads cannot be 0. Use None to disable compute pool entirely."@,
        (ConfigError::StackTooSmall { kilobytes }).text() == "Stack size too small: "@ + decimal(
            kilobytes as nat,
        ) + "KB. Minimum recommended: 128KB"@,
{
}

/// A pool has as many threads as were asked for, up to the most that it can have,
/// with the stack that was asked for. Each is named by the prefix, a dash and its
/// number, so that no two are named alike.
pub proof fn threads_are_numbered(n: nat, stack_size: Option<usize>, prefix: Seq<char>)
    ensures
        ({
            let threads = threads_of(n, stack_size, prefix);
            let most: nat = if usize::BITS == 64 {
                65_535
            } else {
                255
            };
            &&& n <= most ==> threads.names.len() == n
            &&& n > most ==> threads.names.len() == most
            &&& threads.stack_size == stack_size
            &&& forall|i: int|
                0 <= i < threads.names.len() ==> #[trigger] threads.names[i] == prefix + "-"@
                    + decimal(i as nat)
            &&& forall|i: int, j: int|
                0 <= i < j < threads.names.len() ==> #[trigger] threads.names[i]
                    != #[trigger] threads.names[j]
        }),
{
    let threads = threads_of(n, stack_size, prefix);
    let front = prefix + "-"@;
    assert forall|i: int, j: int| 0 <= i < j < threads.names.len()
        implies #[trigger] threads.names[i]
        != #[trigger] threads.names[j] by {
        decimal_says_the_number(i as nat);
        decimal_says_the_number(j as nat);
        let a = threads.names[i];
        let b = threads.names[j];
        assert(a.skip(front.len() as int) =~= decimal(i as nat));
        assert(b.skip(front.len() as int) =~= decimal(j as nat));
    }
}

/// The threads of a pool are those that its configuration asks for.
pub proof fn pools_follow_their_configuration(config: ComputeConfig, cores: Option<usize>)
    ensures
        config.threads_on(cores).stack_size == config.stack_size,
        config.threads_on(cores).names.len() <= config.threads(cores),
        config.threads(cores) <= 255 ==> config.threads_on(cores).names.len() == config.threads(
            cores,
        ),
        forall|i: int|
            0 <= i < config.threads_on(cores).names.len() ==> #[trigger] config.threads_on(
                cores,
            ).names[i] == config.thread_prefix@ + "-"@ + decimal(i as nat),
{
    threads_are_numbered(config.threads(cores), config.stack_size, config.thread_prefix@);
}

/// A pool can be named where the prefix holds no null character.
pub proof fn names_hold_no_null(config: ComputeConfig)
    ensures
        config.nameable() <==> forall|i: int|
            0 <= i < config.thread_prefix@.len() ==> #[trigger] config.thread_prefix@[i] != '\0',
{
}

/// What may come of starting a pool is what may come of starting so many threads,
/// with the stack and the names that were asked for.
pub(crate) proof fn pools_are_started_as_asked(
    config: ComputeConfig,
    cores: Option<usize>,
    answer: Result<rayon::ThreadPool, rayon::ThreadPoolBuildError>,
)
    ensures
        config.stack_size is None ==> (config.may_start(cores, answer) <==> exists|
            n: usize,
            prefix: String,
        |
            n == config.threads(cores) && prefix@ == config.thread_prefix@
                && #[trigger] start_pool.ensures((n, prefix), answer)),
        config.stack_size matches Some(stack) ==> (config.may_start(cores, answer) <==> exists|
            n: usize,
            prefix: String,
        |
            n == config.threads(cores) && prefix@ == config.thread_prefix@
                && #[trigger] start_pool_with_stack.ensures((n, stack, prefix), answer)),
{
    if config.may_start(cores, answer) {
        let (n, prefix) = choose|n: usize, prefix: String|
            {
                &&& n == config.threads(cores)
                &&& prefix@ == config.thread_prefix@
                &&& #[trigger] start_answers(n, config.stack_size, prefix, answer)
            };
        assert(start_answers(n, config.stack_size, prefix, answer));
    }
    match config.stack_size {
        None => {
            if exists|n: usize, prefix: String|
                n == config.threads(cores) && prefix@ == config.thread_prefix@
                    && #[trigger] start_pool.ensures((n, prefix), answer) {
                let (n, prefix) = choose|n: usize, prefix: String|
                    n == config.threads(cores) && prefix@ == config.thread_prefix@
                        && #[trigger] start_pool.ensures((n, prefix), answer);
                assert(start_answers(n, config.stack_size, prefix, answer));
            }
        },
        Some(stack) => {
            if exists|n: usize, prefix: String|
                n == config.threads(cores) && prefix@ == config.thread_prefix@
                    && #[trigger] start_pool_with_stack.ensures((n, stack, prefix), answer) {
                let (n, prefix) = choose|n: usize, prefix: String|
                    n == config.threads(cores) && prefix@ == config.thread_prefix@
                        && #[trigger] start_pool_with_stack.ensures((n, stack, prefix), answer);
                assert(start_answers(n, config.stack_size, prefix, answer));
            }
        },
    }
}

/// The number of threads of a pool is the one that is given, whatever the machine, and
/// otherwise follows from the cores.
pub proof fn threads_are_counted(config: &ComputeConfig, cores: Option<usize>, r: usize)
    requires
        ComputeConfig::thread_count.ensures((config, cores), r),
    ensures
        config.num_threads matches Some(n) ==> r == n,
        config.num_threads is None ==> match cores {
            None => r == 2,
            Some(found) => if found < 4 {
                r == 2
            } else {
                2 * r <= found < 2 * r + 2
            },
        },
{
}

/// A configuration is refused exactly where it asks for no threads or for a stack of
/// less than 128 KB, and no pool is started by one that is refused.
pub proof fn wrong_configurations_are_refused(
    config: &ComputeConfig,
    cores: Option<usize>,
    checked: Result<(), ConfigError>,
    built: Result<rayon::ThreadPool, PoolError>,
)
    ensures
        ({
            let wrong = config.num_threads == Some(0usize) || (config.stack_size matches Some(stack)
                && stack < 128 * 1024);
            &&& ComputeConfig::validate.ensures((config,), checked) ==> {
                &&& checked is Err <==> wrong
                &&& (checked matches Err(e) && e is NoThreads) <==> config.num_threads == Some(
                    0usize,
                )
                &&& checked matches Err(ConfigError::StackTooSmall { kilobytes }) ==> kilobytes
                    * 1024 <= config.stack_size->Some_0 < (kilobytes + 1) * 1024
            }
            &&& ComputeConfig::build_pool.ensures((config, cores), built) ==> {
                &&& (built matches Err(e) && e is Config) <==> wrong
                &&& built matches Ok(pool) ==> {
                    &&& pool_threads(pool).stack_size == config.stack_size
                    &&& forall|i: int|
                        0 <= i < pool_threads(pool).names.len() ==> #[trigger] pool_threads(
                            pool,
                        ).names[i] == config.thread_prefix@ + "-"@ + decimal(i as nat)
                    &&& (config.num_threads matches Some(n) && n <= 255) ==> pool_threads(
                        pool,
                    ).names.len() == config.num_threads->Some_0
                }
            }
        }),
{
    wrong_configurations_are_told(*config);
    pools_follow_their_configuration(*config, cores);
}

/// The default configuration leaves the threads to the machine, gives them 2 MB of stack
/// each, and names them without pinning them.
pub proof fn default_configuration(r: ComputeConfig)
    requires
        ComputeConfig::default.ensures((), r),
    ensures
        r.num_threads is None,
        r.stack_size == Some(2_097_152usize),
        r.thread_prefix@ == "compute"@,
        !r.pin_threads,
{
}

/// Threads and problems are written as they are told.
pub proof fn names_and_problems_are_written(
    prefix: &str,
    index: usize,
    error: &ConfigError,
    r: String,
)
    ensures
        worker_name.ensures((prefix, index), r) ==> r@ == prefix@ + "-"@ + decimal(index as nat),
        ConfigError::message.ensures((error,), r) ==> {
            &&& error is NoThreads ==> r@
                == "Number of compute threads cannot be 0. Use None to disable compute pool entirely."@
            &&& error matches ConfigError::StackTooSmall { kilobytes } ==> r@
                == "Stack size too small: "@ + decimal(*kilobytes as nat)
                + "KB. Minimum recommended: 128KB"@
        },
{
}

} // verus!
