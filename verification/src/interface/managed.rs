//! The managed interface: a raw interface with the idle timer of HID 1.11 on top.
//!
//! The host may ask for a report to be repeated at a fixed rate while nothing changes.
//! The managed interface remembers the report sent last and counts calls of `tick`,
//! which the firmware makes once per millisecond; whenever a full idle period has
//! passed it queues the remembered report again.

use crate::interface::raw::{RawInterface, RawInterfaceConfig, RawInterfaceView};
use crate::usb::UsbError;
use crate::UsbHidError;
use vstd::prelude::*;
use vstd::slice::slice_to_vec;

verus! {

/// Milliseconds in one unit of the idle rate.
pub const IDLE_UNIT_MS: u32 = 4;

/// The state of an [`IdleManager`] as plain values.
pub struct IdleManagerView {
    /// The report sent last, if any was sent.
    pub last_report: Option<Seq<u8>>,
    /// Ticks since the last report was sent or repeated.
    pub elapsed: nat,
}

impl IdleManagerView {
    /// Length of the idle period in ticks for an idle rate.
    pub open spec fn period(rate: u8) -> nat {
        (rate * IDLE_UNIT_MS) as nat
    }

    /// Whether the next tick completes an idle period. A rate of 0 switches periodic
    /// reports off.
    pub open spec fn due(self, rate: u8) -> bool {
        rate != 0 && self.elapsed + 1 >= Self::period(rate)
    }

    /// The report that the next tick repeats, if it repeats one.
    pub open spec fn retransmission(self, rate: u8) -> Option<Seq<u8>> {
        if self.due(rate) {
            self.last_report
        } else {
            None
        }
    }

    /// The state after one tick: a completed period starts over, as does the count
    /// while periodic reports are off.
    pub open spec fn tick(self, rate: u8) -> IdleManagerView {
        IdleManagerView {
            last_report: self.last_report,
            elapsed: if rate == 0 || self.due(rate) {
                0
            } else {
                self.elapsed + 1
            },
        }
    }

    /// The state after `count` ticks at a constant rate.
    pub open spec fn ticks(self, rate: u8, count: nat) -> IdleManagerView
        decreases count,
    {
        if count == 0 {
            self
        } else {
            self.ticks(rate, (count - 1) as nat).tick(rate)
        }
    }

    /// The state after `report` was sent: it is remembered and a new period starts.
    pub open spec fn report_written(self, report: Seq<u8>) -> IdleManagerView {
        IdleManagerView { last_report: Some(report), elapsed: 0 }
    }

    /// With a non-zero idle rate `rate` and no write in between, the ticks after a
    /// report `report` was sent repeat it exactly once per idle period: of the ticks
    /// numbered 1, 2, 3, ... after the write, tick number `count + 1` repeats the
    /// report if and only if `count + 1` is a multiple of `4 * rate`, and no tick repeats
    /// anything else.
    pub proof fn lemma_retransmits_once_per_period(
        self,
        report: Seq<u8>,
        rate: u8,
        count: nat,
    )
        requires
            rate > 0,
        ensures
            self.report_written(report).ticks(rate, count).last_report == Some(report),
            self.report_written(report).ticks(rate, count).elapsed == count % Self::period(
                rate,
            ),
            self.report_written(report).ticks(rate, count).retransmission(rate) == if (count
                + 1) % Self::period(rate) == 0 {
                Some(report)
            } else {
                None
            },
        decreases count,
    {
        let period = Self::period(rate);
        assert(period == 4 * rate);
        if count == 0 {
            vstd::arithmetic::div_mod::lemma_small_mod(0, period);
        } else {
            self.lemma_retransmits_once_per_period(report, rate, (count - 1) as nat);
            lemma_successor_mod((count - 1) as nat, period);
        }
        lemma_successor_mod(count, period);
    }

    /// With an idle rate of 0 no tick repeats a report, whatever was sent before.
    pub proof fn lemma_rate_zero_never_retransmits(self, count: nat)
        ensures
            self.ticks(0, count).retransmission(0).is_none(),
    {
    }
}

/// Counting modulo `m`: the successor of `n` is either the next residue, or 0 when `n`
/// holds the last one.
proof fn lemma_successor_mod(n: nat, m: nat)
    requires
        m > 0,
    ensures
        (n + 1) % m == if n % m + 1 == m {
            0
        } else {
            n % m + 1
        },
        n % m < m,
{
    vstd::arithmetic::div_mod::lemma_fundamental_div_mod(n as int, m as int);
    vstd::arithmetic::div_mod::lemma_mod_bound(n as int, m as int);
    let q = (n as int) / (m as int);
    let r = (n as int) % (m as int);
    if r + 1 == m {
        assert(n + 1 == (q + 1) * m + 0) by (nonlinear_arith)
            requires
                n == m * q + r,
                r + 1 == m,
        ;
        vstd::arithmetic::div_mod::lemma_fundamental_div_mod_converse(
            (n + 1) as int,
            m as int,
            q + 1,
            0,
        );
    } else {
        assert(n + 1 == q * m + (r + 1)) by (nonlinear_arith)
            requires
                n == m * q + r,
        ;
        vstd::arithmetic::div_mod::lemma_fundamental_div_mod_converse(
            (n + 1) as int,
            m as int,
            q,
            r + 1,
        );
    }
}

/// The idle timer of one report: remembers the report sent last and counts the ticks
/// since.
#[derive(Debug)]
pub struct IdleManager {
    last_report: Option<Vec<u8>>,
    since_last_report: u32,
}

impl View for IdleManager {
    type V = IdleManagerView;

    closed spec fn view(&self) -> IdleManagerView {
        IdleManagerView {
            last_report: match self.last_report {
                Some(report) => Some(report@),
                None => None,
            },
            elapsed: self.since_last_report as nat,
        }
    }
}

impl IdleManager {
    /// A timer that has seen no report yet.
    pub fn new() -> (manager: IdleManager)
        ensures
            manager@ == (IdleManagerView { last_report: None, elapsed: 0 }),
    {
        IdleManager { last_report: None, since_last_report: 0 }
    }

    /// Notes that `report` was sent.
    pub fn report_written(&mut self, report: &[u8])
        ensures
            final(self)@ == old(self)@.report_written(report@),
    {
        self.last_report = Some(slice_to_vec(report));
        self.since_last_report = 0;
    }

    /// The report sent last.
    pub fn last_report(&self) -> (report: Option<&Vec<u8>>)
        ensures
            match report {
                Some(bytes) => self@.last_report == Some(bytes@),
                None => self@.last_report.is_none(),
            },
    {
        self.last_report.as_ref()
    }

    /// Advances the timer by one tick at idle rate `rate` and says whether an idle
    /// period was completed.
    pub fn tick(&mut self, rate: u8) -> (due: bool)
        ensures
            due == old(self)@.due(rate),
            final(self)@ == old(self)@.tick(rate),
    {
        if rate == 0 {
            self.since_last_report = 0;
            false
        } else {
            let period: u32 = (rate as u32) * IDLE_UNIT_MS;
            if self.since_last_report >= period - 1 {
                self.since_last_report = 0;
                true
            } else {
                self.since_last_report = self.since_last_report + 1;
                false
            }
        }
    }
}

/// The state of a [`ManagedInterface`] as plain values.
pub struct ManagedInterfaceView {
    /// The raw interface underneath.
    pub raw: RawInterfaceView,
    /// The idle timer.
    pub idle: IdleManagerView,
}

impl ManagedInterfaceView {
    /// The idle rate the timer runs at: that of report id 0, the only report of a
    /// managed interface.
    pub open spec fn idle_rate(self) -> u8 {
        self.raw.get_idle(0)
    }

    /// The answer to a write of `data`.
    pub open spec fn write_result(self, data: Seq<u8>) -> Result<usize, UsbHidError> {
        match self.raw.in_endpoint.put_result(data) {
            Ok(n) => Ok(n),
            Err(error) => Err(UsbHidError::of_usb_error(error)),
        }
    }

    /// The state after an attempt to write `data`: a report that the endpoint took is
    /// remembered and starts a new idle period; a refused one leaves the timer alone.
    pub open spec fn write_report(self, data: Seq<u8>) -> ManagedInterfaceView {
        ManagedInterfaceView {
            raw: self.raw.write_report(data),
            idle: if self.raw.in_endpoint.put_result(data).is_ok() {
                self.idle.report_written(data)
            } else {
                self.idle
            },
        }
    }

    /// The report that the next tick queues again, if it does.
    pub open spec fn retransmission(self) -> Option<Seq<u8>> {
        self.idle.retransmission(self.idle_rate())
    }

    /// The answer of the next tick: the outcome of the write it attempts, or success if
    /// it attempts none.
    pub open spec fn tick_result(self) -> Result<(), UsbHidError> {
        match self.retransmission() {
            Some(report) => match self.raw.in_endpoint.put_result(report) {
                Ok(_) => Ok(()),
                Err(error) => Err(UsbHidError::of_usb_error(error)),
            },
            None => Ok(()),
        }
    }

    /// The state after one tick. The timer moves on whether or not the endpoint took
    /// the repeated report: a refused repetition is not tried again before the next
    /// period ends.
    pub open spec fn tick(self) -> ManagedInterfaceView {
        ManagedInterfaceView {
            raw: match self.retransmission() {
                Some(report) => self.raw.write_report(report),
                None => self.raw,
            },
            idle: self.idle.tick(self.idle_rate()),
        }
    }
}

impl ManagedInterfaceView {
    /// The state after `count` ticks, as long as nothing else happens to the interface.
    pub open spec fn ticks(self, count: nat) -> ManagedInterfaceView
        decreases count,
    {
        if count == 0 {
            self
        } else {
            self.ticks((count - 1) as nat).tick()
        }
    }

    /// Ticks leave the idle rates alone and move the idle timer as
    /// [`IdleManagerView::ticks`] says.
    pub proof fn lemma_ticks(self, count: nat)
        ensures
            self.ticks(count).raw.idle == self.raw.idle,
            self.ticks(count).idle == self.idle.ticks(self.idle_rate(), count),
        decreases count,
    {
        if count > 0 {
            self.lemma_ticks((count - 1) as nat);
        }
    }

    /// After a report was written, and with no further write, an interface with the
    /// non-zero idle rate `N` queues the report again exactly once in every `4 * N`
    /// ticks: of the ticks numbered 1, 2, 3, ... after the write, tick `count + 1`
    /// repeats the report if and only if `count + 1` is a multiple of `4 * N`, and no
    /// tick repeats anything else. With an idle rate of 0 no tick repeats anything.
    pub proof fn lemma_idle_retransmission(self, report: Seq<u8>, count: nat)
        requires
            self.write_result(report).is_ok(),
        ensures
            self.write_report(report).ticks(count).retransmission() == if self.idle_rate() != 0
                && (count + 1) % IdleManagerView::period(self.idle_rate()) == 0 {
                Some(report)
            } else {
                None
            },
    {
        let written = self.write_report(report);
        let rate = self.idle_rate();
        written.lemma_ticks(count);
        assert(written.idle == self.idle.report_written(report));
        assert(written.idle_rate() == rate);
        if rate != 0 {
            self.idle.lemma_retransmits_once_per_period(report, rate, count);
        } else {
            written.idle.lemma_rate_zero_never_retransmits(count);
        }
    }
}

/// A raw interface with an idle timer.
#[derive(Debug)]
pub struct ManagedInterface {
    inner: RawInterface,
    report_idle: IdleManager,
}

impl View for ManagedInterface {
    type V = ManagedInterfaceView;

    closed spec fn view(&self) -> ManagedInterfaceView {
        ManagedInterfaceView { raw: self.inner@, idle: self.report_idle@ }
    }
}

impl ManagedInterface {
    /// Allocates the interface, with a timer that has seen no report.
    pub fn new(config: RawInterfaceConfig, id: u8, description_index: Option<u8>) -> (interface:
        ManagedInterface)
        ensures
            interface@ == (ManagedInterfaceView {
                raw: RawInterfaceView::allocated(config, id, description_index),
                idle: IdleManagerView { last_report: None, elapsed: 0 },
            }),
    {
        ManagedInterface {
            inner: RawInterface::new(config, id, description_index),
            report_idle: IdleManager::new(),
        }
    }

    /// The raw interface underneath.
    pub fn raw(&self) -> (raw: &RawInterface)
        ensures
            raw@ == self@.raw,
    {
        &self.inner
    }

    /// The raw interface underneath, for the dispatcher to update.
    pub fn raw_mut(&mut self) -> (raw: &mut RawInterface)
        ensures
            raw@ == old(self)@.raw,
            final(self)@ == (ManagedInterfaceView { raw: final(raw)@, ..old(self)@ }),
    {
        &mut self.inner
    }

    /// The report sent last.
    pub fn last_report(&self) -> (report: Option<&Vec<u8>>)
        ensures
            match report {
                Some(bytes) => self@.idle.last_report == Some(bytes@),
                None => self@.idle.last_report.is_none(),
            },
    {
        self.report_idle.last_report()
    }

    /// Hands a report to the IN endpoint, remembers it and restarts the idle period.
    ///
    /// Fails with `WouldBlock` while the endpoint still holds an earlier report and
    /// passes every other refusal of the endpoint on; the report is then neither queued
    /// nor remembered, and the caller has to write it again.
    pub fn write_report(&mut self, data: &[u8]) -> (result: Result<usize, UsbHidError>)
        ensures
            result == old(self)@.write_result(data@),
            final(self)@ == old(self)@.write_report(data@),
    {
        match self.inner.write_report(data) {
            Ok(n) => {
                self.report_idle.report_written(data);
                Ok(n)
            },
            Err(error) => Err(usb_hid_error(error)),
        }
    }

    /// Reads a report sent by the host; see [`RawInterface::read_report`].
    pub fn read_report(&mut self, data: &mut [u8]) -> (result: Result<usize, UsbError>)
        ensures
            result == old(self)@.raw.read_result(old(data)@.len()),
            final(data)@ == old(self)@.raw.read_into(old(data)@),
            final(self)@ == (ManagedInterfaceView {
                raw: old(self)@.raw.read_report(old(data)@.len()),
                ..old(self)@
            }),
    {
        self.inner.read_report(data)
    }

    /// Advances the idle timer by one millisecond and, when an idle period ends, queues
    /// the report sent last once more.
    ///
    /// Never waits: if the endpoint is still busy the repetition is skipped, the error
    /// says so, and the next one is due a full period later.
    pub fn tick(&mut self) -> (result: Result<(), UsbHidError>)
        ensures
            result == old(self)@.tick_result(),
            final(self)@ == old(self)@.tick(),
    {
        let rate = self.inner.global_idle();
        if self.report_idle.tick(rate) {
            match &self.report_idle.last_report {
                Some(report) => match self.inner.write_report(report.as_slice()) {
                    Ok(_) => Ok(()),
                    Err(error) => Err(usb_hid_error(error)),
                },
                None => Ok(()),
            }
        } else {
            Ok(())
        }
    }
}

/// Turns a transport error into the error reported to the firmware.
pub fn usb_hid_error(error: UsbError) -> (out: UsbHidError)
    ensures
        out == UsbHidError::of_usb_error(error),
{
    match error {
        UsbError::WouldBlock => UsbHidError::WouldBlock,
        _ => UsbHidError::UsbError(error),
    }
}

} // verus!
