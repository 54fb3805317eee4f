use agent_workflow::squeeze::utils::format_file_size;

fn with_floats(bytes: u64) -> String {
    const UNITS: &[&str] = &["B", "KB", "MB", "GB", "TB"];
    const THRESHOLD: f64 = 1024.0;
    if bytes == 0 {
        return "0 B".to_string();
    }
    let mut size = bytes as f64;
    let mut unit_index = 0;
    while size >= THRESHOLD && unit_index < UNITS.len() - 1 {
        size /= THRESHOLD;
        unit_index += 1;
    }
    if unit_index == 0 {
        format!("{} {}", bytes, UNITS[unit_index])
    } else {
        format!("{:.1} {}", size, UNITS[unit_index])
    }
}

#[test]
fn test_format_file_size() {
    assert_eq!(format_file_size(0), "0 B");
    assert_eq!(format_file_size(512), "512 B");
    assert_eq!(format_file_size(1024), "1.0 KB");
    assert_eq!(format_file_size(1536), "1.5 KB");
    assert_eq!(format_file_size(1024 * 1024), "1.0 MB");
    assert_eq!(format_file_size(1024 * 1024 * 1024), "1.0 GB");
}

#[test]
fn sizes_at_the_edges_of_the_units() {
    assert_eq!(format_file_size(1), "1 B");
    assert_eq!(format_file_size(1023), "1023 B");
    assert_eq!(format_file_size(1024 * 1024 - 1), "1024.0 KB");
    assert_eq!(format_file_size(1024u64.pow(4)), "1.0 TB");
    assert_eq!(format_file_size(1024u64.pow(4) - 1), "1024.0 GB");
    assert_eq!(format_file_size(1024u64.pow(5)), "1024.0 TB");
    assert_eq!(format_file_size(u64::MAX), "16777216.0 TB");
}

#[test]
fn halves_go_to_the_even_tenth() {
    assert_eq!(format_file_size(1024 + 256), "1.2 KB");
    assert_eq!(format_file_size(1024 + 768), "1.8 KB");
    assert_eq!(format_file_size(1024 + 51), "1.0 KB");
    assert_eq!(format_file_size(1024 + 52), "1.1 KB");
    assert_eq!(format_file_size(2 * 1024 * 1024 + 256 * 1024), "2.2 MB");
}

#[test]
fn sizes_agree_with_the_float_formula() {
    let mut samples: Vec<u64> = vec![0, 1, 1023, 1024, 1025, 1280, 1792, u64::MAX, u64::MAX - 1];
    for shift in 0..64u32 {
        let power = 1u64 << shift;
        for delta in [0u64, 1, 2, 3, 255, 256, 257, 511, 512, 513, 1023, 1024, 1025] {
            samples.push(power.wrapping_add(delta));
            samples.push(power.wrapping_sub(delta));
            samples.push(power.wrapping_mul(5).wrapping_add(delta));
            samples.push((power / 20).wrapping_mul(delta | 1));
        }
    }
    let mut state: u64 = 0x9e37_79b9_7f4a_7c15;
    for _ in 0..20_000 {
        state ^= state << 13;
        state ^= state >> 7;
        state ^= state << 17;
        samples.push(state);
        samples.push(state >> (state % 64));
    }
    for tenth in 0..20_000u64 {
        let edge = (tenth * 2 + 1) * 1024 / 20;
        samples.push(edge);
        samples.push(edge + 1);
        samples.push(((tenth * 2 + 1) as u128 * (1u128 << 40) / 20) as u64);
        samples.push(((tenth * 2 + 1) as u128 * (1u128 << 40) / 20) as u64 + 1);
        samples.push((((tenth + 80_000_000) * 2 + 1) as u128 * (1u128 << 40) / 20) as u64);
        samples.push((((tenth + 80_000_000) * 2 + 1) as u128 * (1u128 << 40) / 20) as u64 + 1);
    }
    for bytes in samples {
        assert_eq!(format_file_size(bytes), with_floats(bytes), "for {} bytes", bytes);
    }
}
