use docparse::cuda::{
    cuda_info_from_output, cuda_line_in_range, cuda_output_in_range, parse_cuda_device_info,
    parse_u64,
};

#[test]
fn device_lines_are_parsed_in_bytes() {
    let d = parse_cuda_device_info("0, NVIDIA GeForce RTX 3090, 24576, 24000, 8.6").unwrap();
    assert_eq!(d.id, 0);
    assert_eq!(d.name, "NVIDIA GeForce RTX 3090");
    assert_eq!(d.memory_total, 24576 * 1024 * 1024);
    assert_eq!(d.memory_free, 24000 * 1024 * 1024);
    assert_eq!(d.compute_capability, "8.6");
    assert!(parse_cuda_device_info("0, GPU, 1, 2").is_none());
    assert!(parse_cuda_device_info("x, GPU, 1, 2, 8.0").is_none());
    assert!(parse_cuda_device_info("").is_none());
}

#[test]
fn probe_output_gives_devices_in_order() {
    let out = "0, A, 100, 50, 8.0\r\nbad line\n1, B, 200, 20, 9.0\n";
    assert!(cuda_output_in_range(out));
    let info = cuda_info_from_output(out, Some("550.1".to_string()));
    assert!(info.available);
    assert_eq!(info.devices.len(), 2);
    assert_eq!(info.devices[1].name, "B");
    assert_eq!(info.version, Some("550.1".to_string()));
    let none = cuda_info_from_output("", None);
    assert!(!none.available);
}

#[test]
fn memory_figures_must_fit_in_bytes() {
    assert!(cuda_line_in_range("0, A, 17592186044415, 1, 8.0"));
    assert!(!cuda_line_in_range("0, A, 17592186044416, 1, 8.0"));
    assert!(cuda_line_in_range("garbage"));
    assert_eq!(parse_u64(&"+42".chars().collect()), Some(42));
    assert_eq!(parse_u64(&"18446744073709551616".chars().collect()), None);
    assert_eq!(parse_u64(&"".chars().collect()), None);
}
