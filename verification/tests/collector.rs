use vela::collector::{next_power_of2, AudioCollector, CaptureConfig};

fn fresh() -> AudioCollector {
    AudioCollector::default()
}

#[test]
fn default_configuration() {
    let c = fresh();
    assert_eq!(c.sample_rate(), 44100);
    assert_eq!(c.chunk_size(), 512);
    assert_eq!(c.node_id(), 0xFFFF_FFFF);
    assert!(!c.is_running());
}

#[test]
fn fresh_collector_reads_silence() {
    // A fresh collector, no start() ever called: a read of 4 frames
    // returns 4 zeros.
    let c = fresh();
    let mut out = vec![7i16; 4];
    let n = c.read_chunk(&mut out, 4);
    assert_eq!(n, 4);
    assert_eq!(out, vec![0i16, 0, 0, 0]);
}

#[test]
fn load_then_read_roundtrip_small() {
    // load_chunk([100, -100, 200, -200], 4), then read_chunk(out, 4):
    // 4 frames come back, and normalizing by full scale gives
    // [100/32768, -100/32768, 200/32768, -200/32768].
    let mut c = fresh();
    c.load_chunk(&[100, -100, 200, -200], 4);
    let mut out = vec![0i16; 4];
    let n = c.read_chunk(&mut out, 4);
    assert_eq!(n, 4);
    assert_eq!(out, vec![100i16, -100, 200, -200]);
    let normalized: Vec<f32> = out.iter().map(|s| *s as f32 / 32768.0).collect();
    assert_eq!(
        normalized,
        vec![
            100.0f32 / 32768.0,
            -100.0f32 / 32768.0,
            200.0f32 / 32768.0,
            -200.0f32 / 32768.0
        ]
    );
}

#[test]
fn load_then_read_roundtrip_full_chunk() {
    let mut c = fresh();
    let samples: Vec<i16> = (0..512).map(|i| (i as i16) - 256).collect();
    c.load_chunk(&samples, 512);
    let mut out = vec![0i16; 512];
    let n = c.read_chunk(&mut out, 512);
    assert_eq!(n, 512);
    assert_eq!(out, samples);
}

#[test]
fn read_count_is_clamped() {
    let c = fresh();
    // count above the chunk size is clamped down to it
    let mut out = vec![1i16; 600];
    let n = c.read_chunk(&mut out, 600);
    assert_eq!(n, 512);
    // the tail past the copied frames is untouched
    assert_eq!(out[512], 1);
    // count 0 is clamped up to 1
    let mut small = vec![5i16; 2];
    let n = c.read_chunk(&mut small, 0);
    assert_eq!(n, 1);
    assert_eq!(small, vec![0i16, 5]);
}

#[test]
fn load_count_is_clamped_and_keeps_tail() {
    let mut c = fresh();
    // fill the whole chunk with a marker first
    let marker = vec![9i16; 512];
    c.load_chunk(&marker, 512);
    // then load the marker again and over it a short prefix, so the
    // write slot's old tail shows behind the new frames
    c.load_chunk(&marker, 512);
    c.load_chunk(&[1, 2, 3], 3);
    let mut out = vec![0i16; 512];
    let n = c.read_chunk(&mut out, 512);
    assert_eq!(n, 512);
    assert_eq!(&out[..3], &[1, 2, 3]);
    assert_eq!(out[3], 9);
    assert_eq!(out[511], 9);
}

#[test]
fn clear_after_load_reads_silence() {
    // clear_buffer() followed by read_chunk with no intervening write
    // returns zeros only.
    let mut c = fresh();
    c.load_chunk(&[1000, 2000, 3000, 4000], 4);
    c.clear_buffer();
    let mut out = vec![1i16; 512];
    let n = c.read_chunk(&mut out, 512);
    assert_eq!(n, 512);
    assert!(out.iter().all(|s| *s == 0));
}

#[test]
fn start_is_idempotent_while_running() {
    // A second start() while running spawns nothing: it returns no
    // configuration snapshot to bind a worker to.
    let mut c = fresh();
    let first = c.start();
    assert_eq!(
        first,
        Some(CaptureConfig {
            sample_rate: 44100,
            chunk_size: 512,
            node_id: 0xFFFF_FFFF
        })
    );
    assert!(c.is_running());
    let second = c.start();
    assert_eq!(second, None);
    assert!(c.is_running());
}

#[test]
fn start_silences_previous_contents() {
    let mut c = fresh();
    c.load_chunk(&[42; 512], 512);
    let cfg = c.start();
    assert!(cfg.is_some());
    let mut out = vec![1i16; 512];
    c.read_chunk(&mut out, 512);
    assert!(out.iter().all(|s| *s == 0));
}

#[test]
fn stop_keeps_buffers_and_configuration() {
    // stop() reports whether a worker was live and leaves the buffer
    // length equal to the chunk size.
    let mut c = fresh();
    assert!(!c.stop());
    c.start();
    assert!(c.stop());
    assert!(!c.is_running());
    assert_eq!(c.chunk_size(), 512);
    let mut out = vec![1i16; 512];
    let n = c.read_chunk(&mut out, 512);
    assert_eq!(n, 512);
    assert!(!c.stop());
}

#[test]
fn set_chunk_size_resizes_and_zeroes() {
    // While stopped: both buffers take the new length, zero-filled.
    let mut c = fresh();
    c.load_chunk(&[5; 512], 512);
    let (changed, restart) = c.set_chunk_size(64);
    assert!(changed);
    assert_eq!(restart, None);
    assert_eq!(c.chunk_size(), 64);
    let mut out = vec![1i16; 200];
    let n = c.read_chunk(&mut out, 200);
    assert_eq!(n, 64);
    assert!(out[..64].iter().all(|s| *s == 0));
}

#[test]
fn set_chunk_size_while_running_restarts() {
    let mut c = fresh();
    c.start();
    let (changed, restart) = c.set_chunk_size(64);
    assert!(changed);
    assert_eq!(
        restart,
        Some(CaptureConfig {
            sample_rate: 44100,
            chunk_size: 64,
            node_id: 0xFFFF_FFFF
        })
    );
    assert!(c.is_running());
    let mut out = vec![1i16; 64];
    let n = c.read_chunk(&mut out, 64);
    assert_eq!(n, 64);
    assert!(out.iter().all(|s| *s == 0));
}

#[test]
fn set_chunk_size_clamps_to_minimum() {
    let mut c = fresh();
    let (changed, _) = c.set_chunk_size(2);
    assert!(changed);
    assert_eq!(c.chunk_size(), 16);
    // equal raw value: a no-op
    let (changed, restart) = c.set_chunk_size(16);
    assert!(!changed);
    assert_eq!(restart, None);
    assert_eq!(c.chunk_size(), 16);
}

#[test]
fn set_sample_rate_keeps_buffer_length() {
    // Changing the sample rate never alters the buffer length.
    let mut c = fresh();
    let (changed, restart) = c.set_sample_rate(48000);
    assert!(changed);
    assert_eq!(restart, None);
    assert_eq!(c.sample_rate(), 48000);
    assert_eq!(c.chunk_size(), 512);
    let mut out = vec![1i16; 600];
    let n = c.read_chunk(&mut out, 600);
    assert_eq!(n, 512);
}

#[test]
fn set_sample_rate_clamps_and_nops() {
    let mut c = fresh();
    let (changed, _) = c.set_sample_rate(100);
    assert!(changed);
    assert_eq!(c.sample_rate(), 8000);
    let (changed, restart) = c.set_sample_rate(8000);
    assert!(!changed);
    assert_eq!(restart, None);
}

#[test]
fn set_node_id_restarts_only_when_running() {
    let mut c = fresh();
    let (changed, restart) = c.set_node_id(33);
    assert!(changed);
    assert_eq!(restart, None);
    assert_eq!(c.node_id(), 33);
    let (changed, restart) = c.set_node_id(33);
    assert!(!changed);
    assert_eq!(restart, None);
    c.start();
    let (changed, restart) = c.set_node_id(44);
    assert!(changed);
    assert_eq!(
        restart,
        Some(CaptureConfig {
            sample_rate: 44100,
            chunk_size: 512,
            node_id: 44
        })
    );
    assert!(c.is_running());
}

#[test]
fn bare_swap_exchanges_roles() {
    let mut c = fresh();
    c.load_chunk(&[11, 22], 2);
    // the readable chunk starts with the loaded frames; a bare swap
    // exposes the other slot (holding the pre-load read buffer: zeros),
    // and a second swap brings the frames back
    c.swap();
    let mut out = vec![9i16; 2];
    c.read_chunk(&mut out, 2);
    assert_eq!(out, vec![0i16, 0]);
    c.swap();
    c.read_chunk(&mut out, 2);
    assert_eq!(out, vec![11i16, 22]);
}

#[test]
fn next_power_of2_values() {
    assert_eq!(next_power_of2(0), 1);
    assert_eq!(next_power_of2(1), 1);
    assert_eq!(next_power_of2(2), 2);
    assert_eq!(next_power_of2(3), 4);
    assert_eq!(next_power_of2(16), 16);
    assert_eq!(next_power_of2(17), 32);
    assert_eq!(next_power_of2(470), 512);
    assert_eq!(next_power_of2(0x8000_0000), 0x8000_0000);
}

#[test]
fn requested_latency_default_configuration() {
    // 512 * 44100 / 48000 = 470 frames, rounded up to 512.
    let cfg = CaptureConfig {
        sample_rate: 44100,
        chunk_size: 512,
        node_id: 0xFFFF_FFFF,
    };
    assert_eq!(cfg.requested_latency(), 512);
    // 1024 * 48000 / 48000 = 1024, already a power of two.
    let cfg = CaptureConfig {
        sample_rate: 48000,
        chunk_size: 1024,
        node_id: 0,
    };
    assert_eq!(cfg.requested_latency(), 1024);
}
