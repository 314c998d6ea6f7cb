use nse_gpu::config::{config, Config, ConfigError};
use nse_gpu::device::{bus_id_from_raw, BusIdError};
use nse_gpu::program::{generate_nse_program, join_program, KernelLibrary};

fn library() -> KernelLibrary {
    KernelLibrary {
        hash: "H".to_string(),
        common: "C".to_string(),
        mask: "M".to_string(),
        expander: "E".to_string(),
        butterfly: "B".to_string(),
        combine: "X".to_string(),
    }
}

fn sample() -> Config {
    Config {
        num_nodes_window: 2048,
        k: 8,
        degree_expander: 384,
        degree_butterfly: 16,
        num_expander_layers: 8,
        num_butterfly_layers: 7,
    }
}

#[test]
fn join_program_orders_parts() {
    let text = join_program("h".to_string(), "f".to_string(), &library());
    assert_eq!(text, "h\nf\nH\nC\nM\nE\nB\nX");
}

#[test]
fn program_holds_header_field_and_library() {
    let text = generate_nse_program(sample(), &library()).unwrap();
    let header = config(sample()).unwrap();
    assert!(text.starts_with(&header));
    assert!(text.ends_with("\nH\nC\nM\nE\nB\nX"));
    let field = &text[header.len() + 1..text.len() - "\nH\nC\nM\nE\nB\nX".len()];
    assert!(field.len() > 100);
    assert!(field.contains("Fr"));
    assert_ne!(field, "Fr");
}

#[test]
fn program_is_deterministic() {
    let a = generate_nse_program(sample(), &library()).unwrap();
    let b = generate_nse_program(sample(), &library()).unwrap();
    assert_eq!(a, b);
}

#[test]
fn program_refuses_invalid_config() {
    let mut c = sample();
    c.k = 3;
    assert!(matches!(generate_nse_program(c, &library()), Err(ConfigError::KNotPowerOfTwo)));
    let mut c = sample();
    c.num_nodes_window = 4096;
    assert!(matches!(
        generate_nse_program(c, &library()),
        Err(ConfigError::BitSizeNotByteAligned)
    ));
}

#[test]
fn bus_id_little_endian() {
    assert_eq!(bus_id_from_raw(&vec![0x01, 0x02, 0x03, 0x04]), Ok(0x0403_0201));
    assert_eq!(bus_id_from_raw(&vec![0xff, 0xff, 0xff, 0xff, 0x09]), Ok(u32::MAX));
    assert_eq!(bus_id_from_raw(&vec![0x2a, 0, 0, 0]), Ok(42));
}

#[test]
fn bus_id_short_reply() {
    assert_eq!(bus_id_from_raw(&vec![1, 2, 3]), Err(BusIdError::ShortReply));
    assert_eq!(bus_id_from_raw(&vec![]), Err(BusIdError::ShortReply));
}
