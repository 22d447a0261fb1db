//! NVIDIA devices, as the vendor's management library shows them.

use crate::collectors::model::{
    absent, gpu_views, present, Capability, CapabilityErrorKind, CapabilityView, GpuSnapshot,
    GpuView,
};
use crate::schedule::{backoff_doubles_until_its_cap, double_backoff, doubled, doubled_times};
use crate::text;
use vstd::arithmetic::power2::pow2;
use vstd::prelude::*;

verus! {

/// The delay before the first retry, in nanoseconds.
pub const NVML_INIT_RETRY_INITIAL: u64 = 30_000_000_000;

/// The longest delay before a retry, in nanoseconds.
pub const NVML_INIT_RETRY_MAX: u64 = 900_000_000_000;

/// A value that is made when it is first needed, but after a failure not before a delay that
/// doubles.
pub struct RetryingInit<T> {
    pub value: Option<T>,
    pub last_error: Option<String>,
    pub next_retry_at: Option<u128>,
    pub retry_delay: u64,
}

impl<T> RetryingInit<T> {
    /// The delay is one of those that doubling leads to.
    pub open spec fn valid(self) -> bool {
        NVML_INIT_RETRY_INITIAL <= self.retry_delay <= NVML_INIT_RETRY_MAX
    }

    /// The value waits for its next retry.
    pub open spec fn waiting(self, now: u64) -> bool {
        self.value is None && (self.next_retry_at matches Some(at) && now < at)
    }

    /// What is said while the value waits.
    pub open spec fn excuse(self) -> Seq<char> {
        match self.last_error {
            Some(error) => error@,
            None => "initialization is waiting for retry"@,
        }
    }

    /// A value that was never tried.
    pub open spec fn untried() -> RetryingInit<T> {
        RetryingInit {
            value: None,
            last_error: None,
            next_retry_at: None,
            retry_delay: NVML_INIT_RETRY_INITIAL,
        }
    }

    /// The state after an attempt at `now` that failed.
    pub open spec fn after_failure(self, now: u64, error: String) -> RetryingInit<T> {
        RetryingInit {
            value: None,
            last_error: Some(error),
            next_retry_at: Some((now + self.retry_delay) as u128),
            retry_delay: doubled(self.retry_delay as int, NVML_INIT_RETRY_MAX as int) as u64,
        }
    }

    /// The state after attempts that all failed: when each was made, and why it failed.
    pub open spec fn after_failures(attempts: Seq<(u64, String)>) -> RetryingInit<T>
        decreases attempts.len(),
    {
        if attempts.len() == 0 {
            RetryingInit::untried()
        } else {
            RetryingInit::<T>::after_failures(attempts.drop_last()).after_failure(
                attempts.last().0,
                attempts.last().1,
            )
        }
    }

    /// A value that was never tried.
    pub fn new() -> (r: Self)
        ensures
            r == RetryingInit::<T>::untried(),
            r.valid(),
    {
        RetryingInit {
            value: None,
            last_error: None,
            next_retry_at: None,
            retry_delay: NVML_INIT_RETRY_INITIAL,
        }
    }

    /// The value, made by `init` where it is not there and no retry has to be waited for.
    pub fn get_or_try_init<F: FnOnce() -> Result<T, String>>(&mut self, now: u64, init: F) -> (r: Result<
        &T,
        String,
    >)
        requires
            old(self).valid(),
            call_requires(init, ()),
        ensures
            final(self).valid(),
            old(self).value matches Some(value) ==> *final(self) == *old(self) && r == Ok::<
                &T,
                String,
            >(&value),
            old(self).waiting(now) ==> *final(self) == *old(self) && (r matches Err(error)
                && error@ == old(self).excuse()),
            old(self).value is None && !old(self).waiting(now) ==> match r {
                Ok(value) => call_ensures(init, (), Ok::<T, String>(*value)) && *final(self) == (
                RetryingInit {
                    value: Some(*value),
                    last_error: None,
                    next_retry_at: None,
                    retry_delay: NVML_INIT_RETRY_INITIAL,
                }),
                Err(error) => final(self).last_error matches Some(said) && call_ensures(
                    init,
                    (),
                    Err::<T, String>(said),
                ) && error@ == said@ && *final(self) == old(self).after_failure(now, said),
            },
    {
        if self.value.is_none() {
            let wait = match self.next_retry_at {
                Some(at) => (now as u128) < at,
                None => false,
            };
            if wait {
                return Err(
                    match &self.last_error {
                        Some(error) => error.clone(),
                        None => text::owned("initialization is waiting for retry"),
                    },
                );
            }
            match init() {
                Ok(value) => {
                    self.value = Some(value);
                    self.last_error = None;
                    self.next_retry_at = None;
                    self.retry_delay = NVML_INIT_RETRY_INITIAL;
                },
                Err(error) => {
                    let said = error.clone();
                    self.last_error = Some(error);
                    self.next_retry_at = Some((now as u128) + (self.retry_delay as u128));
                    self.retry_delay = double_backoff(self.retry_delay, NVML_INIT_RETRY_MAX);
                    return Err(said);
                },
            }
        }
        match &self.value {
            Some(value) => Ok(value),
            None => Err(text::owned("initialization completed without a value")),
        }
    }
}

/// What one device gave, as far as it gave anything.
#[derive(Debug)]
pub struct NvidiaDevice {
    pub uuid: Option<String>,
    pub name: Option<String>,
    pub utilization_percent: Option<u64>,
    /// All of its memory, and what of it is used.
    pub memory: Option<(u64, u64)>,
    pub temperature_celsius: Option<u64>,
    pub power_watts: Option<u64>,
    pub core_clock_mhz: Option<u64>,
    pub memory_clock_mhz: Option<u64>,
    pub pcie_rx_bytes_per_second: Option<u64>,
    pub pcie_tx_bytes_per_second: Option<u64>,
}

/// What the library gave.
#[derive(Debug)]
pub enum NvidiaLook {
    NotInitialized(String),
    NotCounted(String),
    /// The devices by their numbers, as far as they could be opened.
    Devices(Vec<Option<NvidiaDevice>>),
}

/// The snapshot of a device; it is named by its number where it has no name of its own.
pub open spec fn device_view(index: nat, device: NvidiaDevice) -> GpuView {
    GpuView {
        id: match device.uuid {
            Some(uuid) => uuid@,
            None => "nvidia-"@ + text::decimal(index),
        },
        vendor: "nvidia"@,
        name: match device.name {
            Some(name) => name@,
            None => "NVIDIA GPU "@ + text::decimal(index),
        },
        utilization_percent: device.utilization_percent,
        memory_total_bytes: match device.memory {
            Some(memory) => Some(memory.0),
            None => None,
        },
        memory_used_bytes: match device.memory {
            Some(memory) => Some(memory.1),
            None => None,
        },
        temperature_celsius: device.temperature_celsius,
        power_watts: device.power_watts,
        core_clock_mhz: device.core_clock_mhz,
        memory_clock_mhz: device.memory_clock_mhz,
        pcie_rx_bytes_per_second: device.pcie_rx_bytes_per_second,
        pcie_tx_bytes_per_second: device.pcie_tx_bytes_per_second,
        source: "nvml"@,
    }
}

/// The snapshots of the first `n` devices, without those that could not be opened.
pub open spec fn device_views(devices: Seq<Option<NvidiaDevice>>, n: int) -> Seq<GpuView>
    decreases n,
{
    if n <= 0 {
        Seq::empty()
    } else {
        match devices[n - 1] {
            Some(device) => device_views(devices, n - 1).push(device_view((n - 1) as nat, device)),
            None => device_views(devices, n - 1),
        }
    }
}

/// What the library comes to: snapshots and a capability.
pub open spec fn nvidia_verdict(look: NvidiaLook) -> (Seq<GpuView>, CapabilityView) {
    let missing = |kind: CapabilityErrorKind, message: Seq<char>|
        absent("gpu.nvidia"@, "nvml"@, kind, message);
    match look {
        NvidiaLook::NotInitialized(error) => (
            Seq::empty(),
            missing(CapabilityErrorKind::DriverMissing, error@),
        ),
        NvidiaLook::NotCounted(error) => (
            Seq::empty(),
            missing(CapabilityErrorKind::Transient, error@),
        ),
        NvidiaLook::Devices(devices) => {
            let gpus = device_views(devices@, devices@.len() as int);
            if devices@.len() == 0 {
                (
                    gpus,
                    missing(
                        CapabilityErrorKind::NotPresent,
                        "NVML reported no NVIDIA devices"@,
                    ),
                )
            } else if gpus.len() == 0 {
                (
                    gpus,
                    missing(
                        CapabilityErrorKind::Transient,
                        "NVML enumerated devices but none could be queried"@,
                    ),
                )
            } else {
                (gpus, present("gpu.nvidia"@, "nvml"@))
            }
        },
    }
}

fn device_snapshot(index: usize, device: NvidiaDevice) -> (r: GpuSnapshot)
    ensures
        r@ == device_view(index as nat, device),
{
    let number = text::decimal_text(index as u64);
    GpuSnapshot {
        id: match device.uuid {
            Some(uuid) => uuid,
            None => text::cat("nvidia-", number.as_str()),
        },
        vendor: text::owned("nvidia"),
        name: match device.name {
            Some(name) => name,
            None => text::cat("NVIDIA GPU ", number.as_str()),
        },
        utilization_percent: device.utilization_percent,
        memory_total_bytes: match device.memory {
            Some(memory) => Some(memory.0),
            None => None,
        },
        memory_used_bytes: match device.memory {
            Some(memory) => Some(memory.1),
            None => None,
        },
        temperature_celsius: device.temperature_celsius,
        power_watts: device.power_watts,
        core_clock_mhz: device.core_clock_mhz,
        memory_clock_mhz: device.memory_clock_mhz,
        pcie_rx_bytes_per_second: device.pcie_rx_bytes_per_second,
        pcie_tx_bytes_per_second: device.pcie_tx_bytes_per_second,
        source: text::owned("nvml"),
    }
}

fn unavailable(kind: CapabilityErrorKind, message: String) -> (r: Capability)
    ensures
        r@ == absent("gpu.nvidia"@, "nvml"@, kind, message@),
{
    Capability::unavailable("gpu.nvidia", "nvml", kind, message)
}

/// What the library comes to: snapshots and a capability.
pub fn nvidia_result(look: NvidiaLook) -> (r: (Vec<GpuSnapshot>, Capability))
    ensures
        (gpu_views(r.0@), r.1@) == nvidia_verdict(look),
{
    let mut gpus: Vec<GpuSnapshot> = Vec::new();
    assert(gpu_views(gpus@) =~= Seq::empty());
    let mut devices = match look {
        NvidiaLook::NotInitialized(error) => {
            return (gpus, unavailable(CapabilityErrorKind::DriverMissing, error));
        },
        NvidiaLook::NotCounted(error) => {
            return (gpus, unavailable(CapabilityErrorKind::Transient, error));
        },
        NvidiaLook::Devices(devices) => devices,
    };
    let ghost all = devices@;
    if devices.len() == 0 {
        return (
            gpus,
            unavailable(
                CapabilityErrorKind::NotPresent,
                text::owned("NVML reported no NVIDIA devices"),
            ),
        );
    }
    let count: usize = devices.len();
    let mut index: usize = 0;
    assert(all.skip(0) =~= all);
    while index < count
        invariant
            index <= count,
            count == all.len(),
            devices@ == all.skip(index as int),
            gpu_views(gpus@) == device_views(all, index as int),
        decreases count - index,
    {
        let device = devices.remove(0);
        let ghost before = gpu_views(gpus@);
        assert(device == all[index as int]);
        match device {
            Some(device) => {
                let snapshot = device_snapshot(index, device);
                gpus.push(snapshot);
                assert(gpu_views(gpus@) =~= before.push(snapshot@));
            },
            None => {},
        }
        assert(devices@ =~= all.skip(index + 1));
        index += 1;
    }
    if gpus.len() == 0 {
        return (
            gpus,
            unavailable(
                CapabilityErrorKind::Transient,
                text::owned("NVML enumerated devices but none could be queried"),
            ),
        );
    }
    (gpus, Capability::available("gpu.nvidia", "nvml"))
}

/// The delay between two retries never leaves its band, however often they fail.
pub proof fn init_delays_are_bounded(delay: int)
    requires
        NVML_INIT_RETRY_INITIAL <= delay <= NVML_INIT_RETRY_MAX,
    ensures
        NVML_INIT_RETRY_INITIAL <= doubled(delay, NVML_INIT_RETRY_MAX as int)
            <= NVML_INIT_RETRY_MAX,
{
}

/// After `n` attempts in a row that failed, the next one is due no sooner than thirty seconds times
/// two to the power of `n - 1`, or fifteen minutes, after the last; and it is due from then on.
pub proof fn the_next_attempt_is_due_in_time<T>(attempts: Seq<(u64, String)>, now: u64)
    requires
        attempts.len() > 0,
    ensures
        ({
            let n = attempts.len();
            let state = RetryingInit::<T>::after_failures(attempts);
            let doubled_delay = NVML_INIT_RETRY_INITIAL * pow2((n - 1) as nat);
            let delay = if doubled_delay < NVML_INIT_RETRY_MAX {
                doubled_delay
            } else {
                NVML_INIT_RETRY_MAX as int
            };
            &&& state.next_retry_at == Some((attempts.last().0 + delay) as u128)
            &&& state.waiting(now) <==> now < attempts.last().0 + delay
        }),
{
    let before = RetryingInit::<T>::after_failures(attempts.drop_last());
    lemma_delay_after_failures::<T>(attempts.drop_last());
    backoff_doubles_until_its_cap(
        NVML_INIT_RETRY_INITIAL as int,
        NVML_INIT_RETRY_MAX as int,
        (attempts.len() - 1) as nat,
    );
    assert(before.retry_delay <= NVML_INIT_RETRY_MAX);
}

proof fn lemma_delay_after_failures<T>(attempts: Seq<(u64, String)>)
    ensures
        RetryingInit::<T>::after_failures(attempts).valid(),
        RetryingInit::<T>::after_failures(attempts).retry_delay == doubled_times(
            NVML_INIT_RETRY_INITIAL as int,
            NVML_INIT_RETRY_MAX as int,
            attempts.len(),
        ),
    decreases attempts.len(),
{
    if attempts.len() > 0 {
        lemma_delay_after_failures::<T>(attempts.drop_last());
    }
}

/// A device shows what the library says of it, each reading in its own place, under its own id and
/// name, or its number where it has none.
pub proof fn a_device_shows_its_own_readings(index: nat, device: NvidiaDevice)
    ensures
        ({
            let shown = device_view(index, device);
            &&& shown.vendor == "nvidia"@
            &&& shown.source == "nvml"@
            &&& device.uuid matches Some(uuid) ==> shown.id == uuid@
            &&& device.uuid is None ==> shown.id == "nvidia-"@ + text::decimal(index)
            &&& device.name matches Some(name) ==> shown.name == name@
            &&& device.name is None ==> shown.name == "NVIDIA GPU "@ + text::decimal(index)
            &&& shown.utilization_percent == device.utilization_percent
            &&& device.memory matches Some((total, used)) ==> shown.memory_total_bytes == Some(total)
                && shown.memory_used_bytes == Some(used)
            &&& device.memory is None ==> shown.memory_total_bytes is None
                && shown.memory_used_bytes is None
            &&& shown.temperature_celsius == device.temperature_celsius
            &&& shown.power_watts == device.power_watts
            &&& shown.core_clock_mhz == device.core_clock_mhz
            &&& shown.memory_clock_mhz == device.memory_clock_mhz
            &&& shown.pcie_rx_bytes_per_second == device.pcie_rx_bytes_per_second
            &&& shown.pcie_tx_bytes_per_second == device.pcie_tx_bytes_per_second
        }),
{
}

/// How many of the first `n` devices could be opened.
pub open spec fn opened(devices: Seq<Option<NvidiaDevice>>, n: int) -> nat
    decreases n,
{
    if n <= 0 {
        0
    } else {
        opened(devices, n - 1) + (if devices[n - 1] is Some {
            1nat
        } else {
            0
        })
    }
}

/// Every device that could be opened is shown, with its own number and in the order of the numbers,
/// and nothing else is.
pub proof fn every_opened_device_is_shown(devices: Seq<Option<NvidiaDevice>>, n: int)
    requires
        0 <= n <= devices.len(),
    ensures
        device_views(devices, n).len() == opened(devices, n),
        forall|i: int| 0 <= i < n && (#[trigger] devices[i]) is Some ==> opened(devices, i)
            < opened(devices, n) && device_views(devices, n)[opened(devices, i) as int]
            == device_view(i as nat, devices[i]->0),
    decreases n,
{
    if n > 0 {
        every_opened_device_is_shown(devices, n - 1);
    }
}

/// The capability follows what was found: no driver, a library that fails, no device, none that can
/// be queried, or, where one can, availability.
pub proof fn when_nvidia_is_available(look: NvidiaLook)
    ensures
        ({
            let (gpus, capability) = nvidia_verdict(look);
            &&& capability.name == "gpu.nvidia"@
            &&& capability.source == "nvml"@
            &&& capability.available <==> gpus.len() > 0
            &&& look matches NvidiaLook::NotInitialized(error) ==> gpus.len() == 0
                && capability.error_kind == Some(CapabilityErrorKind::DriverMissing)
                && capability.message == Some(error@)
            &&& look matches NvidiaLook::NotCounted(error) ==> gpus.len() == 0
                && capability.error_kind == Some(CapabilityErrorKind::Transient)
                && capability.message == Some(error@)
            &&& look matches NvidiaLook::Devices(devices) ==> {
                &&& gpus == device_views(devices@, devices@.len() as int)
                &&& devices@.len() == 0 ==> capability.error_kind == Some(
                    CapabilityErrorKind::NotPresent,
                )
                &&& devices@.len() > 0 && gpus.len() == 0 ==> capability.error_kind == Some(
                    CapabilityErrorKind::Transient,
                )
            }
        }),
{
}

} // verus!
