//! Configuration options for building a Starling event loop.
use vstd::prelude::*;

verus! {

/// The default number of threads in the synchronous IO pool.
pub const DEFAULT_SYNC_IO_POOL_THREADS: usize = 8;

/// The default size, in bytes, of the buffers of mpsc channels.
pub const DEFAULT_CHANNEL_BUFFER_SIZE: usize = 4096;

/// The number of logical CPUs of the machine.
///
/// Calls `num_cpus::get`, whose documentation promises that it always returns
/// at least 1; nothing else is claimed of the count, which depends on the
/// machine and on the process's CPU affinity.
#[verifier::external_body]
fn logical_cpus() -> (n: usize)
    ensures
        n >= 1,
{
    num_cpus::get()
}

/// The larger of two sizes.
pub open spec fn max_nat(a: nat, b: nat) -> nat {
    if a < b { b } else { a }
}

/// How many values of a type whose size is `size_of_t` bytes fit in a channel
/// buffer of `buffer_size` bytes: never fewer than one, and zero-sized types
/// count as one byte.
pub open spec fn capacity_for(buffer_size: nat, size_of_t: nat) -> nat {
    max_nat(1, buffer_size / max_nat(1, size_of_t))
}

/// Configuration options for building a Starling event loop.
#[derive(Debug)]
pub struct Options {
    main: String,
    sync_io_pool_threads: usize,
    cpu_pool_threads: usize,
    channel_buffer_size: usize,
}

impl Options {
    /// Every configured count is positive.
    #[verifier::type_invariant]
    spec fn counts_positive(self) -> bool {
        &&& self.sync_io_pool_threads > 0
        &&& self.cpu_pool_threads > 0
        &&& self.channel_buffer_size > 0
    }

    /// The JavaScript file evaluated as the main task.
    pub closed spec fn spec_main(&self) -> Seq<char> {
        self.main@
    }

    /// The number of threads of the synchronous IO pool.
    pub closed spec fn spec_sync_io_pool_threads(&self) -> nat {
        self.sync_io_pool_threads as nat
    }

    /// The number of threads of the CPU pool.
    pub closed spec fn spec_cpu_pool_threads(&self) -> nat {
        self.cpu_pool_threads as nat
    }

    /// The size, in bytes, of the buffers of mpsc channels.
    pub closed spec fn spec_channel_buffer_size(&self) -> nat {
        self.channel_buffer_size as nat
    }

    /// Construct a new `Options` object for configuring the Starling event
    /// loop. The given `main` JavaScript file will be evaluated as the main
    /// task; the CPU pool gets one thread per logical CPU.
    pub fn new(main: String) -> (opts: Options)
        ensures
            opts.spec_main() == main@,
            opts.spec_sync_io_pool_threads() == DEFAULT_SYNC_IO_POOL_THREADS,
            opts.spec_cpu_pool_threads() >= 1,
            opts.spec_channel_buffer_size() == DEFAULT_CHANNEL_BUFFER_SIZE,
            opts.spec_sync_io_pool_threads() > 0,
            opts.spec_cpu_pool_threads() > 0,
            opts.spec_channel_buffer_size() > 0,
    {
        Options {
            main,
            sync_io_pool_threads: DEFAULT_SYNC_IO_POOL_THREADS,
            cpu_pool_threads: logical_cpus(),
            channel_buffer_size: DEFAULT_CHANNEL_BUFFER_SIZE,
        }
    }

    /// Configure the number of threads to reserve for the synchronous IO pool.
    pub fn sync_io_pool_threads(self, threads: usize) -> (opts: Self)
        requires
            threads > 0,
        ensures
            opts.spec_sync_io_pool_threads() == threads,
            opts.spec_main() == self.spec_main(),
            opts.spec_cpu_pool_threads() == self.spec_cpu_pool_threads(),
            opts.spec_channel_buffer_size() == self.spec_channel_buffer_size(),
            opts.spec_sync_io_pool_threads() > 0,
            opts.spec_cpu_pool_threads() > 0,
            opts.spec_channel_buffer_size() > 0,
    {
        proof { use_type_invariant(&self); }
        Options { sync_io_pool_threads: threads, ..self }
    }

    /// Configure the number of threads to reserve for the CPU pool.
    pub fn cpu_pool_threads(self, threads: usize) -> (opts: Self)
        requires
            threads > 0,
        ensures
            opts.spec_cpu_pool_threads() == threads,
            opts.spec_main() == self.spec_main(),
            opts.spec_sync_io_pool_threads() == self.spec_sync_io_pool_threads(),
            opts.spec_channel_buffer_size() == self.spec_channel_buffer_size(),
            opts.spec_sync_io_pool_threads() > 0,
            opts.spec_cpu_pool_threads() > 0,
            opts.spec_channel_buffer_size() > 0,
    {
        proof { use_type_invariant(&self); }
        Options { cpu_pool_threads: threads, ..self }
    }

    /// Configure the size, in bytes, of mpsc buffers in the system.
    pub fn channel_buffer_size(self, size: usize) -> (opts: Self)
        requires
            size > 0,
        ensures
            opts.spec_channel_buffer_size() == size,
            opts.spec_main() == self.spec_main(),
            opts.spec_sync_io_pool_threads() == self.spec_sync_io_pool_threads(),
            opts.spec_cpu_pool_threads() == self.spec_cpu_pool_threads(),
            opts.spec_sync_io_pool_threads() > 0,
            opts.spec_cpu_pool_threads() > 0,
            opts.spec_channel_buffer_size() > 0,
    {
        proof { use_type_invariant(&self); }
        Options { channel_buffer_size: size, ..self }
    }

    /// The number of `T`s that should be buffered in an mpsc channel for this
    /// configuration.
    pub fn buffer_capacity_for<T>(&self) -> (cap: usize)
        ensures
            cap == capacity_for(self.spec_channel_buffer_size(), vstd::layout::size_of::<T>()),
            cap >= 1,
    {
        let size = core::mem::size_of::<T>();
        let size_of_t = if size < 1 { 1 } else { size };
        let capacity = self.channel_buffer_size / size_of_t;
        if capacity < 1 { 1 } else { capacity }
    }

    /// The JavaScript file to evaluate as the main task.
    pub fn main_file(&self) -> (m: &String)
        ensures
            m@ == self.spec_main(),
    {
        &self.main
    }

    /// The configured number of threads of the synchronous IO pool.
    pub fn sync_io_pool_size(&self) -> (n: usize)
        ensures
            n == self.spec_sync_io_pool_threads(),
            n > 0,
    {
        proof { use_type_invariant(self); }
        self.sync_io_pool_threads
    }

    /// The configured size, in bytes, of the buffers of mpsc channels.
    pub fn channel_buffer_bytes(&self) -> (n: usize)
        ensures
            n == self.spec_channel_buffer_size(),
            n > 0,
    {
        proof { use_type_invariant(self); }
        self.channel_buffer_size
    }

    /// The configured number of threads of the CPU pool.
    pub fn cpu_pool_size(&self) -> (n: usize)
        ensures
            n == self.spec_cpu_pool_threads(),
            n > 0,
    {
        proof { use_type_invariant(self); }
        self.cpu_pool_threads
    }
}

/// A clone has the same configuration.
impl Clone for Options {
    fn clone(&self) -> (res: Self)
        ensures
            res.spec_main() == self.spec_main(),
            res.spec_sync_io_pool_threads() == self.spec_sync_io_pool_threads(),
            res.spec_cpu_pool_threads() == self.spec_cpu_pool_threads(),
            res.spec_channel_buffer_size() == self.spec_channel_buffer_size(),
            res.spec_sync_io_pool_threads() > 0,
            res.spec_cpu_pool_threads() > 0,
            res.spec_channel_buffer_size() > 0,
    {
        proof { use_type_invariant(self); }
        Options {
            main: self.main.clone(),
            sync_io_pool_threads: self.sync_io_pool_threads,
            cpu_pool_threads: self.cpu_pool_threads,
            channel_buffer_size: self.channel_buffer_size,
        }
    }
}

} // verus!
