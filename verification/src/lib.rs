//! Verified building blocks for OS-level concurrency: spawning threads and
//! joining their results, sharing lock-protected state between threads, and
//! talking to child processes over pipes.

pub mod mutex_counter;
pub mod process_pipe;
pub mod thread_spawn;

pub use mutex_counter::concurrent_collect;
pub use mutex_counter::concurrent_counter;
pub use process_pipe::get_exit_code;
pub use process_pipe::pipe_through_cat;
pub use process_pipe::pipe_through_grep;
pub use process_pipe::run_command;
pub use process_pipe::run_command_with_result;
pub use thread_spawn::double_in_thread;
pub use thread_spawn::parallel_sum;
