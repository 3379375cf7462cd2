use gpuboy_core::apu::{duty_level, freq11, wave_level, Apu};

/// Runs the APU for `t_cycles` T-cycles and collects stereo samples at `rate` Hz, mixing
/// the channel levels as the browser front end does.
fn run_sampled(apu: &mut Apu, t_cycles: u32, rate: f32, out: &mut Vec<f32>) {
    let period = 4194304.0 / rate;
    let mut acc = 0.0f32;
    for _ in 0..t_cycles {
        assert!(apu.can_tick());
        apu.tick();
        acc += 1.0;
        if acc >= period {
            acc -= period;
            if apu.enabled {
                let levels = apu.channel_outputs();
                let ch: Vec<f32> = levels.iter().map(|&l| l as f32 / 15.0).collect();
                let pan = |bit: u8| if (apu.nr51 >> bit) & 1 == 1 { 1.0 } else { 0.0 };
                let lv = (((apu.nr50 >> 4) & 0x07) as f32 + 1.0) / 8.0;
                let rv = ((apu.nr50 & 0x07) as f32 + 1.0) / 8.0;
                let left = (ch[0] * pan(4) + ch[1] * pan(5) + ch[2] * pan(6) + ch[3] * pan(7)) / 4.0 * lv;
                let right = (ch[0] * pan(0) + ch[1] * pan(1) + ch[2] * pan(2) + ch[3] * pan(3)) / 4.0 * rv;
                out.push(left);
                out.push(right);
            } else {
                out.push(0.0);
                out.push(0.0);
            }
        }
    }
}

#[test]
fn apu_generates_samples() {
    let mut apu = Apu::new();
    apu.enabled = true;
    apu.nr50 = 0x77;
    apu.nr51 = 0xFF;
    apu.write(0xFF11, 0x80); // duty=2, length=0
    apu.write(0xFF12, 0xF0); // env initial=15, add=false, period=0
    apu.write(0xFF13, 0x00);
    apu.write(0xFF14, 0x87); // trigger + freq high = 7
    let mut out = Vec::new();
    run_sampled(&mut apu, 10000, 44100.0, &mut out);
    assert!(out.len() >= 200, "expected at least 100 stereo pairs");
    assert!(out.iter().any(|&s| s > 0.0), "expected non-zero samples from CH1");
}

#[test]
fn trigger_enables_channel_and_status_reads() {
    let mut apu = Apu::new();
    apu.write(0xFF26, 0x80); // power on
    apu.write(0xFF12, 0xF0);
    apu.write(0xFF14, 0x80);
    assert_eq!(apu.read(0xFF26) & 0x81, 0x81);
    assert_eq!(apu.channel_outputs()[1], 0);
}

#[test]
fn power_off_ignores_writes() {
    let mut apu = Apu::new();
    apu.write(0xFF26, 0x80);
    apu.write(0xFF12, 0xF0);
    apu.write(0xFF14, 0x80); // CH1 on
    apu.write(0xFF26, 0x00); // power off silences every channel
    assert_eq!(apu.read(0xFF26), 0x70);
    assert_eq!(apu.channel_outputs(), [0, 0, 0, 0]);
    apu.write(0xFF24, 0x12); // ignored while off
    assert_eq!(apu.nr50, 0x77);
    apu.write(0xFF26, 0x80);
    apu.write(0xFF24, 0x12);
    assert_eq!(apu.nr50, 0x12);
}

#[test]
fn wave_ram_roundtrip() {
    let mut apu = Apu::new();
    apu.write(0xFF26, 0x80);
    for i in 0..16u16 {
        apu.write(0xFF30 + i, (i as u8) * 0x11);
    }
    for i in 0..16u16 {
        assert_eq!(apu.read(0xFF30 + i), (i as u8) * 0x11);
    }
}

#[test]
fn duty_and_wave_levels() {
    assert_eq!(duty_level(0, 7), 1);
    assert_eq!(duty_level(0, 0), 0);
    assert_eq!(duty_level(2, 4), 1);
    assert_eq!(duty_level(3, 0), 0);
    assert_eq!(duty_level(3, 3), 1);
    let mut ram = [0u8; 16];
    ram[0] = 0xA5;
    assert_eq!(wave_level(&ram, 0, 1), 0x0A);
    assert_eq!(wave_level(&ram, 1, 1), 0x05);
    assert_eq!(wave_level(&ram, 0, 2), 0x05);
    assert_eq!(wave_level(&ram, 0, 3), 0x02);
    assert_eq!(wave_level(&ram, 0, 0), 0);
    assert_eq!(freq11(0x34, 0xFF), 0x734);
}

#[test]
fn length_counter_silences_channel() {
    let mut apu = Apu::new();
    apu.write(0xFF26, 0x80);
    apu.write(0xFF21, 0xF0); // CH4 envelope so the DAC is on
    apu.write(0xFF20, 0x3F); // length load 63: one length tick left
    apu.write(0xFF23, 0xC0); // trigger with length enabled
    assert_eq!(apu.read(0xFF26) & 0x08, 0x08);
    for _ in 0..(8192 * 2) {
        assert!(apu.can_tick());
        apu.tick();
    }
    assert_eq!(apu.read(0xFF26) & 0x08, 0);
}

#[test]
fn unused_sound_registers_read_ff() {
    let mut apu = Apu::new();
    apu.write(0xFF26, 0x80);
    for addr in [0xFF15u16, 0xFF1F, 0xFF27, 0xFF2F] {
        apu.write(addr, 0x00);
        assert_eq!(apu.read(addr), 0xFF, "address {addr:#06X}");
    }
    assert_eq!(apu.read(0xFF26), 0xF0);
}

#[test]
fn volume_registers_roundtrip() {
    let mut apu = Apu::new();
    apu.write(0xFF26, 0x80);
    apu.write(0xFF24, 0x35);
    apu.write(0xFF25, 0xA6);
    assert_eq!(apu.read(0xFF24), 0x35);
    assert_eq!(apu.read(0xFF25), 0xA6);
}

#[test]
fn power_on_state_is_exact() {
    let apu = Apu::new();
    assert!(!apu.enabled);
    assert_eq!((apu.nr50, apu.nr51, apu.fs_cycles, apu.fs_step), (0x77, 0xF3, 0, 0));
    assert_eq!(apu.ch4.lfsr, 0x7FFF);
    assert_eq!(apu.read(0xFF11), 0x3F);
    assert_eq!(apu.read(0xFF12), 0x00);
    assert_eq!(apu.read(0xFF22), 0x00);
    assert_eq!(apu.read(0xFF26), 0x70);
    assert!(apu.ch3.wave_ram.iter().all(|&b| b == 0));
}
