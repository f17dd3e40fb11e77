use perf_sampler::action::Action;
use perf_sampler::action::MAX_VALUE;
use perf_sampler::action::PRECISION;
use perf_sampler::config::Config;
use perf_sampler::counter::Counter;
use perf_sampler::pool::Attempt;
use perf_sampler::sampler::Perf;
use perf_sampler::statistic::PerfStatistic;

/// A counter that opens on the cores below a limit that depends on the
/// statistic, and that reads its core's number times a hundred.
struct Limited {
    core: u64,
}

fn limit(statistic: PerfStatistic) -> u64 {
    match statistic {
        PerfStatistic::Cycles => 4,
        PerfStatistic::Instructions => 3,
        PerfStatistic::CacheMisses => 0,
        PerfStatistic::PageFaults => 8,
        _ => 2,
    }
}

impl Counter for Limited {
    fn open(statistic: PerfStatistic, core: u64) -> Option<Self> {
        if core < limit(statistic) {
            Some(Limited { core })
        } else {
            None
        }
    }

    fn read(&mut self) -> Option<u64> {
        if self.core == 2 {
            None
        } else {
            Some(self.core * 100)
        }
    }
}

/// A counter that always opens and always reads the largest count.
struct Saturated;

impl Counter for Saturated {
    fn open(_statistic: PerfStatistic, _core: u64) -> Option<Self> {
        Some(Saturated)
    }

    fn read(&mut self) -> Option<u64> {
        Some(u64::MAX)
    }
}

fn configured() -> Vec<PerfStatistic> {
    vec![
        PerfStatistic::Cycles,
        PerfStatistic::Instructions,
        PerfStatistic::CacheMisses,
        PerfStatistic::PageFaults,
        PerfStatistic::BusCycles,
    ]
}

#[test]
fn disabled_configuration_gives_no_sampler() {
    let config = Config::new(false, configured(), 60);
    let perf: Option<Perf<Limited>> = Perf::new(&config, Some(4));
    assert!(perf.is_none());
    let perf: Option<Perf<Limited>> = Perf::new(&config, None);
    assert!(perf.is_none());
}

#[test]
fn statistic_is_in_the_pool_exactly_if_every_core_gave_a_handle() {
    let config = Config::new(true, configured(), 60);
    let perf: Perf<Limited> = Perf::new(&config, Some(4)).expect("the sampler is enabled");

    assert_eq!(
        perf.attempts(),
        &vec![
            Attempt { statistic: PerfStatistic::Cycles, created: 4 },
            Attempt { statistic: PerfStatistic::Instructions, created: 3 },
            Attempt { statistic: PerfStatistic::CacheMisses, created: 0 },
            Attempt { statistic: PerfStatistic::PageFaults, created: 4 },
            Attempt { statistic: PerfStatistic::BusCycles, created: 2 },
        ]
    );
    assert_eq!(perf.statistics(), vec![PerfStatistic::Cycles, PerfStatistic::PageFaults]);
    assert_eq!(perf.cores(), 4);
    assert!(!perf.registered());
}

#[test]
fn every_row_of_a_tick_has_one_outcome_per_core() {
    let config = Config::new(true, configured(), 60);
    let mut perf: Perf<Limited> = Perf::new(&config, Some(4)).expect("the sampler is enabled");

    let tick = perf.sample_at(5);
    assert_eq!(
        tick.readings,
        vec![
            vec![Some(0), Some(100), None, Some(300)],
            vec![Some(0), Some(100), None, Some(300)],
        ]
    );
    assert_eq!(
        tick.actions,
        vec![
            Action::Register {
                statistic: PerfStatistic::Cycles,
                max_value: 1_000_000_000_000,
                precision: 3,
                window: 60,
            },
            Action::Register {
                statistic: PerfStatistic::PageFaults,
                max_value: 1_000_000_000_000,
                precision: 3,
                window: 60,
            },
            Action::Record { statistic: PerfStatistic::Cycles, time: 5, value: 400 },
            Action::Record { statistic: PerfStatistic::PageFaults, time: 5, value: 400 },
        ]
    );
}

#[test]
fn registration_uses_the_fixed_scale_and_the_configured_window() {
    assert_eq!(MAX_VALUE, 1_000_000_000_000);
    assert_eq!(PRECISION, 3);
    let config = Config::new(true, vec![PerfStatistic::Instructions], 17);
    let mut perf: Perf<Limited> = Perf::new(&config, Some(3)).expect("the sampler is enabled");

    assert_eq!(
        perf.register(),
        vec![Action::Register {
            statistic: PerfStatistic::Instructions,
            max_value: 1_000_000_000_000,
            precision: 3,
            window: 17,
        }]
    );
    assert!(perf.registered());
}

#[test]
fn register_is_idempotent() {
    let config = Config::new(true, configured(), 60);
    let mut perf: Perf<Limited> = Perf::new(&config, Some(2)).expect("the sampler is enabled");

    assert_eq!(perf.register().len(), 4);
    assert!(perf.registered());
    assert_eq!(perf.register(), vec![]);
    assert!(perf.registered());
}

#[test]
fn sample_after_register_does_not_register_again() {
    let config = Config::new(true, vec![PerfStatistic::Cycles], 60);
    let mut perf: Perf<Limited> = Perf::new(&config, Some(2)).expect("the sampler is enabled");

    perf.register();
    let tick = perf.sample_at(9);
    assert_eq!(
        tick.actions,
        vec![Action::Record { statistic: PerfStatistic::Cycles, time: 9, value: 100 }]
    );
}

#[test]
fn repeated_samples_register_once() {
    let config = Config::new(true, configured(), 60);
    let mut perf: Perf<Limited> = Perf::new(&config, Some(2)).expect("the sampler is enabled");

    let mut registrations = 0;
    for time in 0..5u64 {
        let tick = perf.sample_at(time);
        for action in &tick.actions {
            match action {
                Action::Register { .. } => registrations += 1,
                Action::Record { time: at, value, .. } => {
                    assert_eq!(*at, time);
                    assert_eq!(*value, 100);
                }
                Action::DeleteChannel { .. } => panic!("a tick deletes no channel"),
            }
        }
        assert!(perf.registered());
    }
    assert_eq!(registrations, perf.statistics().len());
    assert_eq!(registrations, 4);
}

#[test]
fn deregister_while_unregistered_deletes_nothing() {
    let config = Config::new(true, configured(), 60);
    let mut perf: Perf<Limited> = Perf::new(&config, Some(2)).expect("the sampler is enabled");

    assert_eq!(perf.deregister(), vec![]);
    assert!(!perf.registered());

    perf.sample_at(1);
    assert_eq!(perf.deregister().len(), 4);
    assert_eq!(perf.deregister(), vec![]);
    assert!(!perf.registered());
}

#[test]
fn deregister_deletes_every_channel_in_order() {
    let config = Config::new(true, configured(), 60);
    let mut perf: Perf<Limited> = Perf::new(&config, Some(2)).expect("the sampler is enabled");

    perf.register();
    assert_eq!(
        perf.deregister(),
        vec![
            Action::DeleteChannel { statistic: PerfStatistic::Cycles },
            Action::DeleteChannel { statistic: PerfStatistic::Instructions },
            Action::DeleteChannel { statistic: PerfStatistic::PageFaults },
            Action::DeleteChannel { statistic: PerfStatistic::BusCycles },
        ]
    );
}

#[test]
fn pool_for_no_core_keeps_every_statistic_and_records_zero() {
    let config = Config::new(true, configured(), 60);
    let mut perf: Perf<Limited> = Perf::new(&config, Some(0)).expect("the sampler is enabled");

    assert_eq!(perf.cores(), 0);
    assert_eq!(perf.statistics(), configured());
    let tick = perf.sample_at(3);
    assert_eq!(tick.readings, vec![Vec::<Option<u64>>::new(); 5]);
    assert_eq!(
        tick.actions[5..],
        [
            Action::Record { statistic: PerfStatistic::Cycles, time: 3, value: 0 },
            Action::Record { statistic: PerfStatistic::Instructions, time: 3, value: 0 },
            Action::Record { statistic: PerfStatistic::CacheMisses, time: 3, value: 0 },
            Action::Record { statistic: PerfStatistic::PageFaults, time: 3, value: 0 },
            Action::Record { statistic: PerfStatistic::BusCycles, time: 3, value: 0 },
        ]
    );
}

#[test]
fn empty_pool_is_valid_and_inert() {
    let config = Config::new(true, vec![PerfStatistic::CacheMisses], 60);
    let mut perf: Perf<Limited> = Perf::new(&config, Some(2)).expect("the sampler is enabled");

    assert_eq!(perf.statistics(), vec![]);
    assert_eq!(perf.attempts(), &vec![Attempt { statistic: PerfStatistic::CacheMisses, created: 0 }]);
    let tick = perf.sample_at(1);
    assert_eq!(tick.readings, Vec::<Vec<Option<u64>>>::new());
    assert_eq!(tick.actions, vec![]);
    assert!(perf.registered());
    assert_eq!(perf.deregister(), vec![]);
    assert!(!perf.registered());
}

#[test]
fn statistic_configured_twice_is_counted_once() {
    let config = Config::new(
        true,
        vec![PerfStatistic::Cycles, PerfStatistic::PageFaults, PerfStatistic::Cycles],
        60,
    );
    assert_eq!(config.statistics(), &vec![PerfStatistic::Cycles, PerfStatistic::PageFaults]);
    assert!(config.enabled());
    assert_eq!(config.window(), 60);

    let perf: Perf<Limited> = Perf::new(&config, Some(2)).expect("the sampler is enabled");
    assert_eq!(perf.statistics(), vec![PerfStatistic::Cycles, PerfStatistic::PageFaults]);
    assert_eq!(perf.attempts().len(), 2);
}

#[test]
fn total_beyond_64_bits_wraps() {
    let config = Config::new(true, vec![PerfStatistic::Cycles], 60);
    let mut perf: Perf<Saturated> = Perf::new(&config, Some(2)).expect("the sampler is enabled");

    let tick = perf.sample_at(1);
    assert_eq!(tick.readings, vec![vec![Some(u64::MAX), Some(u64::MAX)]]);
    assert_eq!(
        tick.actions[1],
        Action::Record { statistic: PerfStatistic::Cycles, time: 1, value: u64::MAX - 1 }
    );
}

#[test]
fn name_is_perf() {
    let config = Config::new(true, vec![], 60);
    let perf: Perf<Limited> = Perf::new(&config, None).expect("the sampler is enabled");
    assert_eq!(perf.name(), "perf");
    assert_eq!(perf.name(), perf.name());
}

#[test]
fn channel_of_an_action_is_the_label_of_its_statistic() {
    let register = Action::Register {
        statistic: PerfStatistic::BranchMisses,
        max_value: MAX_VALUE,
        precision: PRECISION,
        window: 1,
    };
    let record = Action::Record { statistic: PerfStatistic::PageFaults, time: 1, value: 2 };
    let delete = Action::DeleteChannel { statistic: PerfStatistic::Instructions };
    assert_eq!(register.statistic(), PerfStatistic::BranchMisses);
    assert_eq!(register.channel(), "perf/branch/misses");
    assert_eq!(record.statistic(), PerfStatistic::PageFaults);
    assert_eq!(record.channel(), PerfStatistic::PageFaults.label());
    assert_eq!(delete.statistic(), PerfStatistic::Instructions);
    assert_eq!(delete.channel(), "perf/instructions");
}
