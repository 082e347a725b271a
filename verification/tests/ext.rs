use nixie_clock::nix::nixiedigits::NixiePresentation;
use nixie_clock::nix_rtic::ext::{pending_edge, ExternalData, LinkEdge, ParseSpi};

fn send_frame(parser: &mut ParseSpi, frame: &[u8]) -> Option<[u8; 5]> {
    assert!(parser.on_cs_edges(false).is_none());
    for byte in frame {
        for i in (0..8).rev() {
            parser.on_clk_rising_edge((byte >> i) & 1 == 1);
        }
    }
    parser.on_cs_edges(true)
}

#[test]
fn frame_is_collected_msb_first() {
    let mut p = ParseSpi::Idle;
    let got = send_frame(&mut p, &[0x02, 0x12, 0x34, 0x56, 0x78]);
    assert_eq!(got, Some([0x02, 0x12, 0x34, 0x56, 0x78]));
    assert!(matches!(p, ParseSpi::Idle));
}

#[test]
fn partial_frame_is_handed_out() {
    let mut p = ParseSpi::Idle;
    let got = send_frame(&mut p, &[0x02, 0x9a]);
    assert_eq!(got, Some([0x02, 0x9a, 0, 0, 0]));
}

#[test]
fn other_command_is_dropped() {
    let mut p = ParseSpi::Idle;
    assert!(p.on_cs_edges(false).is_none());
    for i in (0..8).rev() {
        p.on_clk_rising_edge((0x03u8 >> i) & 1 == 1);
    }
    assert!(matches!(p, ParseSpi::Idle));
    for _ in 0..8 {
        p.on_clk_rising_edge(true);
    }
    assert!(matches!(p, ParseSpi::Idle));
    assert_eq!(p.on_cs_edges(true), None);
}

#[test]
fn chip_select_edges() {
    let mut p = ParseSpi::Idle;
    assert_eq!(p.on_cs_edges(true), None);
    assert!(matches!(p, ParseSpi::Idle));
    assert_eq!(p.on_cs_edges(false), None);
    assert!(matches!(p, ParseSpi::Collecting(0, [0, 0, 0, 0, 0])));
    p.on_clk_rising_edge(true);
    assert_eq!(p.on_cs_edges(false), None);
    assert!(matches!(p, ParseSpi::Collecting(1, [1, 0, 0, 0, 0])));
    assert_eq!(p.on_cs_edges(true), Some([1, 0, 0, 0, 0]));
}

#[test]
fn idle_ignores_clock() {
    let mut p = ParseSpi::Idle;
    p.on_clk_rising_edge(true);
    assert!(matches!(p, ParseSpi::Idle));
}

#[test]
fn edges_routed() {
    assert!(pending_edge(true, true) == Some(LinkEdge::Clock));
    assert!(pending_edge(false, true) == Some(LinkEdge::ChipSelect));
    assert!(pending_edge(false, false).is_none());
    let mut p = ParseSpi::Idle;
    assert_eq!(p.on_edge(LinkEdge::ChipSelect, false), None);
    assert_eq!(p.on_edge(LinkEdge::Clock, false), None);
    assert!(matches!(p, ParseSpi::Collecting(1, [0, 0, 0, 0, 0])));
    assert_eq!(p.on_edge(LinkEdge::ChipSelect, true), Some([0, 0, 0, 0, 0]));
}

#[test]
fn external_data_from_frame() {
    let data = ExternalData::from([0x02, 0x12, 0x34, 0x56, 0x78]);
    assert_eq!(data.temperature.to_digits(), [Some(8), Some(7), Some(6), Some(5)]);
    assert_eq!(data.voltage.to_digits(), [Some(4), Some(3), Some(2), Some(1)]);
}
