use rain::signalgen::SignalGenerator;

fn sine_table_i16(len: usize) -> &'static [i16] {
    let mut table: Vec<i16> = Vec::with_capacity(len);
    for i in 0..len {
        let s = (2.0 * std::f64::consts::PI * (i as f64) / (len as f64)).sin();
        table.push((s * (i16::MAX as f64)).round() as i16);
    }
    table.leak()
}

#[test]
fn test_signal_generator() {
    let sine_i16 = sine_table_i16(1024);
    let mut siggen = SignalGenerator::<i16>::new();
    siggen.set_wavetable(sine_i16);
    siggen.set_freq(2);
    siggen.set_samplerate(100);
    siggen.set_repeat(false);
    siggen.start();
    for x in 0..110 {
        let _y = siggen._next();
        match _y {
            Some(y) => println!("{}: {}\n", x, (y as f64) / (i32::MAX as f64)),
            None => {
                println!("Generator stopped at {}", x);
                break;
            }
        }
    }
}

#[test]
fn signal_generator_stops_after_fifty_calls() {
    let table = sine_table_i16(1024);
    let mut siggen = SignalGenerator::<i16>::new();
    siggen.set_wavetable(table);
    siggen.set_freq(2);
    siggen.set_samplerate(100);
    siggen.set_repeat(false);
    siggen.start();
    let mut emitted = 0;
    for _ in 0..110 {
        if siggen._next().is_some() {
            emitted += 1;
        } else {
            break;
        }
    }
    assert_eq!(emitted, 50);
    assert!(!siggen.is_running());
    assert_eq!(siggen._next(), None);
}

#[test]
fn signal_generator_440_hz_does_not_overflow() {
    let table = sine_table_i16(1024);
    let mut siggen = SignalGenerator::<i16>::new();
    siggen.set_wavetable(table);
    siggen.set_freq(440);
    siggen.set_samplerate(44100);
    siggen.reset_and_start();
    assert_eq!(siggen._next(), Some(table[10]));
    assert_eq!(siggen.sample_rate(), 44100);
    siggen.stop_and_reset();
    assert_eq!(siggen._next(), None);
    siggen.set_mfreq(440_000);
    siggen.set_msamplerate(44_100_000);
    siggen.reset();
    siggen.start();
    assert_eq!(siggen._next(), Some(table[10]));
    siggen.stop();
    assert!(!siggen.is_running());
}

#[test]
fn signal_generator_32_bit_table() {
    let table: &'static [i32] = vec![7, 8, 9, 10].leak();
    let mut siggen = SignalGenerator::<i32>::new();
    siggen.set_wavetable(table);
    siggen.set_freq(1);
    siggen.set_samplerate(4);
    siggen.start();
    // last index 3: phases 16384, 32768, 49152, 65536 select 0, 1, 2, 3
    assert_eq!(siggen._next(), Some(7));
    assert_eq!(siggen._next(), Some(8));
    assert_eq!(siggen._next(), Some(9));
    assert_eq!(siggen._next(), Some(10));
    assert_eq!(siggen._next(), Some(7));
}
