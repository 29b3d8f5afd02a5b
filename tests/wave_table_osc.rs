use rain::osc::wave_table_osc::{WaveTableOsc16, WaveTableOsc32, WaveTableOscillator};

fn sine_table_i16(len: usize) -> &'static [i16] {
    let mut table: Vec<i16> = Vec::with_capacity(len);
    for i in 0..len {
        let s = (2.0 * std::f64::consts::PI * (i as f64) / (len as f64)).sin();
        table.push((s * (i16::MAX as f64)).round() as i16);
    }
    table.leak()
}

fn sine_table_i32(len: usize) -> &'static [i32] {
    let mut table: Vec<i32> = Vec::with_capacity(len);
    for i in 0..len {
        let s = (2.0 * std::f64::consts::PI * (i as f64) / (len as f64)).sin();
        table.push((s * (i32::MAX as f64)).round() as i32);
    }
    table.leak()
}

#[test]
fn test_wave_table_oscillator() {
    let sine_i16 = sine_table_i16(1024);
    let mut osc = WaveTableOscillator::<i16>::new();
    osc.set_wavetable(sine_i16);
    osc.set_freq(2);
    osc.set_sample_rate(100);
    osc.set_repeat(false);
    osc.start();
    for x in 0..110 {
        let _y = osc._next();
        match _y {
            Some(y) => println!("{}: {}\n", x, (y as f64) / (i32::MAX as f64)),
            None => {
                println!("Generator stopped at {}", x);
                break;
            }
        }
    }
}

#[test]
fn single_shot_emits_one_cycle_then_nothing() {
    let table = sine_table_i16(1024);
    let mut osc = WaveTableOsc16::new();
    osc.set_wavetable(table);
    osc.set_freq(2);
    osc.set_sample_rate(100);
    osc.set_repeat(false);
    osc.start();
    for n in 1..=50u32 {
        let phi = n as usize * 1310;
        let idx = 1023 * phi / 65536;
        assert_eq!(osc._next(), Some(table[idx]), "call {}", n);
    }
    assert!(osc.is_running());
    for _ in 0..200 {
        assert_eq!(osc._next(), None);
        assert!(!osc.is_running());
    }
    osc.start();
    assert!(osc._next().is_some());
}

#[test]
fn first_call_at_440_hz_reads_near_index_zero() {
    let table = sine_table_i16(1024);
    let mut osc = WaveTableOsc16::new();
    osc.set_wavetable(table);
    osc.set_freq(440);
    osc.set_sample_rate(44100);
    osc.set_repeat(true);
    osc.start();
    let first = osc._next();
    assert_eq!(first, Some(table[10]));
    let mut out: Vec<i16> = vec![first.unwrap()];
    for _ in 1..101 {
        out.push(osc._next().unwrap());
    }
    assert!(out[24] > 32000);
    assert!(out[74] < -32000);
    assert!(out[99] < 0);
    assert_eq!(out[100], table[6]);
}

#[test]
fn repeating_sequence_is_periodic() {
    let table = sine_table_i16(1024);
    let mut osc = WaveTableOsc16::new();
    osc.set_wavetable(table);
    osc.set_freq(1);
    osc.set_sample_rate(4);
    osc.start();
    let out: Vec<Option<i16>> = (0..40).map(|_| osc._next()).collect();
    assert_eq!(out[0], Some(table[255]));
    assert_eq!(out[3], Some(table[1023]));
    for j in 0..36 {
        assert_eq!(out[j], out[j + 4]);
    }
}

#[test]
fn stopped_oscillator_keeps_accumulating_phase() {
    let table = sine_table_i16(1024);
    let mut osc = WaveTableOsc16::new();
    osc.set_wavetable(table);
    osc.set_freq(1);
    osc.set_sample_rate(4);
    assert_eq!(osc._next(), None);
    osc.start();
    assert_eq!(osc._next(), Some(table[511]));
    osc.stop();
    assert_eq!(osc._next(), None);
    osc.start();
    assert_eq!(osc._next(), Some(table[1023]));
    osc.reset();
    assert_eq!(osc._next(), Some(table[255]));
    osc.stop_and_reset();
    assert!(!osc.is_running());
    osc.reset_and_start();
    assert_eq!(osc._next(), Some(table[255]));
}

#[test]
fn fresh_oscillator_is_stopped_at_44100_hz() {
    let osc = WaveTableOsc16::new();
    assert!(!osc.is_running());
    assert_eq!(osc.sample_rate(), 44100);
    let mut osc32 = WaveTableOsc32::new();
    osc32.set_msample_rate(48_000_500);
    assert_eq!(osc32.sample_rate(), 48000);
}

#[test]
fn millihertz_setters_match_hertz_setters() {
    let table = sine_table_i32(1024);
    let mut a = WaveTableOsc32::new();
    let mut b = WaveTableOsc32::new();
    a.set_wavetable(table);
    b.set_wavetable(table);
    a.set_freq(3);
    a.set_sample_rate(50);
    b.set_mfreq(3000);
    b.set_msample_rate(50000);
    a.start();
    b.start();
    for _ in 0..100 {
        assert_eq!(a._next(), b._next());
    }
}

#[test]
fn wider_table_uses_full_range() {
    let table = sine_table_i32(1024);
    let mut osc = WaveTableOsc32::new();
    osc.set_wavetable(table);
    osc.set_freq(1);
    osc.set_sample_rate(4);
    osc.start();
    assert_eq!(osc._next(), Some(table[255]));
    assert!(table[255] > 2_147_000_000);
}

#[test]
fn fresh_oscillator_plays_440_hz_without_setters() {
    let table = sine_table_i16(1024);
    let mut fresh = WaveTableOsc16::new();
    fresh.set_wavetable(table);
    fresh.start();
    let mut set = WaveTableOsc16::new();
    set.set_wavetable(table);
    set.set_freq(440);
    set.set_sample_rate(44100);
    set.start();
    assert_eq!(fresh._next(), Some(table[10]));
    assert_eq!(set._next(), Some(table[10]));
    for _ in 0..500 {
        assert_eq!(fresh._next(), set._next());
    }
}

#[test]
fn truncated_increment_repeats_after_whole_phase_cycles() {
    // 440 Hz at 44100 Hz gives an increment of 653, coprime to 65536
    let table = sine_table_i16(1024);
    let mut osc = WaveTableOsc16::new();
    osc.set_wavetable(table);
    osc.start();
    let out: Vec<Option<i16>> = (0..65536 + 300).map(|_| osc._next()).collect();
    for j in 0..300 {
        assert_eq!(out[j], out[j + 65536]);
    }
    assert_ne!(out[0..2205], out[2205..4410]);
}

#[test]
fn stopped_oscillator_never_restarts_by_itself() {
    let table = sine_table_i16(1024);
    let mut osc = WaveTableOsc16::new();
    osc.set_wavetable(table);
    for _ in 0..100_000 {
        assert_eq!(osc._next(), None);
    }
    assert!(!osc.is_running());
}
