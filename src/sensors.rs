use vstd::prelude::*;

verus! {

/// How many readings of each kind the store keeps.
pub const MAX_READINGS: usize = 100;

/// One reading and the time it was taken, in milliseconds of a clock that
/// the caller chooses.
#[derive(Debug, Clone, Copy, PartialEq, Eq, Structural)]
pub struct SensorReading {
    pub reading: i32,
    pub timestamp_ms: u64,
}

impl SensorReading {
    /// A reading taken at `timestamp_ms`.
    pub fn new(reading: i32, timestamp_ms: u64) -> (r: Self)
        ensures
            r.reading == reading,
            r.timestamp_ms == timestamp_ms,
    {
        SensorReading { reading, timestamp_ms }
    }
}

/// `s` with `x` added at the end, the oldest element dropped when that makes
/// it longer than `MAX_READINGS`.
pub open spec fn appended_bounded(s: Seq<SensorReading>, x: SensorReading) -> Seq<SensorReading> {
    if s.len() + 1 > MAX_READINGS {
        s.push(x).subrange(1, s.len() as int + 1)
    } else {
        s.push(x)
    }
}

/// Rolling window of current-sensor readings (milliamps) and mains-peak
/// readings (millivolts), oldest first, each at most `MAX_READINGS` long.
#[derive(Debug)]
pub struct SensorsState {
    current_sensor: Vec<SensorReading>,
    mains_peak: Vec<SensorReading>,
    last_update_ms: u64,
}

impl SensorsState {
    /// Each window holds at most `MAX_READINGS` readings.
    pub closed spec fn wf(&self) -> bool {
        self.current_sensor.len() <= MAX_READINGS && self.mains_peak.len() <= MAX_READINGS
    }

    /// The current-sensor readings, oldest first.
    pub closed spec fn current_view(&self) -> Seq<SensorReading> {
        self.current_sensor@
    }

    /// The mains-peak readings, oldest first.
    pub closed spec fn mains_view(&self) -> Seq<SensorReading> {
        self.mains_peak@
    }

    /// When the store was last updated.
    pub closed spec fn last_update_view(&self) -> u64 {
        self.last_update_ms
    }

    /// When the store was last updated.
    pub fn last_update(&self) -> (r: u64)
        ensures
            r == self.last_update_view(),
    {
        self.last_update_ms
    }

    /// An empty store, last updated at `now_ms`.
    pub fn new(now_ms: u64) -> (r: Self)
        ensures
            r.wf(),
            r.current_view().len() == 0,
            r.mains_view().len() == 0,
            r.last_update_view() == now_ms,
    {
        SensorsState { current_sensor: Vec::new(), mains_peak: Vec::new(), last_update_ms: now_ms }
    }

    /// The current-sensor readings, oldest first.
    pub fn current_readings(&self) -> (r: &Vec<SensorReading>)
        requires
            self.wf(),
        ensures
            r@ == self.current_view(),
            r@.len() <= MAX_READINGS,
    {
        &self.current_sensor
    }

    /// The mains-peak readings, oldest first.
    pub fn mains_readings(&self) -> (r: &Vec<SensorReading>)
        requires
            self.wf(),
        ensures
            r@ == self.mains_view(),
            r@.len() <= MAX_READINGS,
    {
        &self.mains_peak
    }

    /// Adds a current-sensor reading taken at `now_ms`, dropping the oldest
    /// one when the window is full.
    pub fn add_cs_reading(&mut self, reading: i32, now_ms: u64)
        requires
            old(self).wf(),
        ensures
            final(self).wf(),
            final(self).current_view().len() <= MAX_READINGS,
            final(self).current_view() == appended_bounded(
                old(self).current_view(),
                SensorReading { reading, timestamp_ms: now_ms },
            ),
            final(self).mains_view() == old(self).mains_view(),
            final(self).last_update_view() == now_ms,
    {
        self.current_sensor.push(SensorReading::new(reading, now_ms));
        if self.current_sensor.len() > MAX_READINGS {
            self.current_sensor.remove(0);
        }
        self.last_update_ms = now_ms;
        proof {
            let s = old(self).current_view();
            let x = SensorReading { reading, timestamp_ms: now_ms };
            if s.len() + 1 > MAX_READINGS {
                assert(s.push(x).remove(0) =~= s.push(x).subrange(1, s.len() as int + 1));
            }
        }
    }

    /// Adds a mains-peak reading taken at `now_ms`, dropping the oldest one
    /// when the window is full.
    pub fn add_mains_peak_reading(&mut self, reading: i32, now_ms: u64)
        requires
            old(self).wf(),
        ensures
            final(self).wf(),
            final(self).mains_view().len() <= MAX_READINGS,
            final(self).mains_view() == appended_bounded(
                old(self).mains_view(),
                SensorReading { reading, timestamp_ms: now_ms },
            ),
            final(self).current_view() == old(self).current_view(),
            final(self).last_update_view() == now_ms,
    {
        self.mains_peak.push(SensorReading::new(reading, now_ms));
        if self.mains_peak.len() > MAX_READINGS {
            self.mains_peak.remove(0);
        }
        self.last_update_ms = now_ms;
        proof {
            let s = old(self).mains_view();
            let x = SensorReading { reading, timestamp_ms: now_ms };
            if s.len() + 1 > MAX_READINGS {
                assert(s.push(x).remove(0) =~= s.push(x).subrange(1, s.len() as int + 1));
            }
        }
    }
}

} // verus!
