use stm32f411ve_disco::bus::Request;
use stm32f411ve_disco::microphone::{SampleRate, MAX_SAMPLES, MP45DT02};

#[test]
fn microphone_sample_rates() {
    assert_eq!(SampleRate::MHz1.hertz(), 1_000_000);
    assert_eq!(SampleRate::MHz2_4.hertz(), 2_400_000);
    assert_eq!(SampleRate::MHz3_2.hertz(), 3_200_000);
}

#[test]
fn microphone_keeps_the_rate_chosen() {
    let mut microphone = MP45DT02::new();
    assert_eq!(microphone.sample_rate(), SampleRate::MHz2_4);
    microphone.set_sample_rate(SampleRate::MHz3_2);
    assert_eq!(microphone.sample_rate(), SampleRate::MHz3_2);
    microphone.set_sample_rate(SampleRate::MHz1);
    assert_eq!(microphone.sample_rate(), SampleRate::MHz1);
}

#[test]
fn microphone_waits() {
    let mut microphone = MP45DT02::new();
    assert_eq!(microphone.start_recording(), Request::Delay { millis: 10 });
    assert_eq!(microphone.stop_recording(), Request::Delay { millis: 1 });
    assert_eq!(microphone.sample_rate(), SampleRate::MHz2_4);
}

#[test]
fn microphone_samples_are_a_ramp() {
    let mut microphone = MP45DT02::new();
    let mut buffer = vec![-1i16; 5];
    assert_eq!(microphone.read_samples(&mut buffer), 5);
    assert_eq!(buffer, vec![0, 100, 200, 300, 400]);
    let mut buffer: Vec<i16> = Vec::new();
    assert_eq!(microphone.read_samples(&mut buffer), 0);
    assert!(buffer.is_empty());
    let mut buffer = vec![7i16; MAX_SAMPLES];
    assert_eq!(microphone.read_samples(&mut buffer), 328);
    assert_eq!(buffer[327], 32_700);
    for (index, sample) in buffer.iter().enumerate() {
        assert_eq!(*sample as usize, index * 100);
    }
}
