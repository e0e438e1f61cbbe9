use phoenix_corridor_checker::check_flow::{
    exit_code, next_stage, CheckEvent, CheckOutcome, CheckStage,
};
use phoenix_corridor_checker::format::{document_format, DocumentFormat};
use phoenix_corridor_checker::identity::{format_hex_proof, format_shard_id, new_shard_identity};
use phoenix_corridor_checker::material::{clamped_cycle_ratio, CycleRatio};

fn run(events: &[CheckEvent]) -> CheckStage {
    let mut stage = CheckStage::LoadBands;
    for e in events {
        stage = next_stage(stage, *e);
    }
    stage
}

fn ratio_value(r: CycleRatio) -> f64 {
    r.num as f64 / r.den as f64
}

#[test]
fn yaml_extensions_select_yaml() {
    assert_eq!(document_format("config/phoenix_corridors.yaml"), DocumentFormat::Yaml);
    assert_eq!(document_format("examples/cad_exports/node01_geom.yml"), DocumentFormat::Yaml);
    assert_eq!(document_format(".yaml"), DocumentFormat::Yaml);
    assert_eq!(document_format(".yml"), DocumentFormat::Yaml);
    assert_eq!(document_format("r\u{e9}seau.yml"), DocumentFormat::Yaml);
}

#[test]
fn other_paths_select_json() {
    assert_eq!(document_format("examples/cad_exports/node01_geom.json"), DocumentFormat::Json);
    assert_eq!(document_format("bands.YAML"), DocumentFormat::Json);
    assert_eq!(document_format("yaml"), DocumentFormat::Json);
    assert_eq!(document_format("bands.yaml.bak"), DocumentFormat::Json);
    assert_eq!(document_format("x.ml"), DocumentFormat::Json);
    assert_eq!(document_format(""), DocumentFormat::Json);
}

#[test]
fn readme_rat_bite_ratio_is_plain_quotient() {
    let r = clamped_cycle_ratio(15000, 10000);
    assert_eq!(r, CycleRatio { num: 15000, den: 10000 });
    assert_eq!(ratio_value(r), 1.5);
}

#[test]
fn readme_fatigue_ratio_is_capped_at_two() {
    let r = clamped_cycle_ratio(2_000_000, 1_000_000);
    assert_eq!(r, CycleRatio { num: 2, den: 1 });
    assert_eq!(ratio_value(r), 2.0);
    assert_eq!(clamped_cycle_ratio(50_000, 10_000), CycleRatio { num: 2, den: 1 });
}

#[test]
fn nothing_required_scores_zero() {
    assert_eq!(clamped_cycle_ratio(5, 0), CycleRatio { num: 0, den: 1 });
    assert_eq!(clamped_cycle_ratio(0, 0), CycleRatio { num: 0, den: 1 });
    assert_eq!(ratio_value(clamped_cycle_ratio(0, 0)), 0.0);
}

#[test]
fn ratio_just_below_cap_is_not_capped() {
    assert_eq!(clamped_cycle_ratio(19_999, 10_000), CycleRatio { num: 19_999, den: 10_000 });
    assert_eq!(clamped_cycle_ratio(0, 7), CycleRatio { num: 0, den: 7 });
    let big = u64::MAX / 2 + 1;
    assert_eq!(clamped_cycle_ratio(u64::MAX, big), CycleRatio { num: u64::MAX, den: big });
    assert_eq!(clamped_cycle_ratio(u64::MAX, u64::MAX / 2), CycleRatio { num: 2, den: 1 });
}

#[test]
fn cycle_ratio_matches_float_min_formula() {
    let cases: [(u64, u64); 8] = [
        (15000, 10000),
        (2_000_000, 1_000_000),
        (1, 3),
        (7, 3),
        (5, 0),
        (123_456_789, 61_728_395),
        (u64::MAX, u64::MAX / 2 + 1),
        (1 << 60, 3),
    ];
    for (s, r) in cases {
        let expected = if r == 0 { 0.0 } else { (s as f64 / r as f64).min(2.0) };
        assert_eq!(ratio_value(clamped_cycle_ratio(s, r)), expected);
    }
}

#[test]
fn more_survived_cycles_never_lower_the_ratio() {
    let required = 10_000u64;
    let mut prev = ratio_value(clamped_cycle_ratio(0, required));
    for s in (0..40_000u64).step_by(997) {
        let cur = ratio_value(clamped_cycle_ratio(s, required));
        assert!(cur >= prev);
        assert!(cur >= 0.0 && cur <= 2.0);
        prev = cur;
    }
}

#[test]
fn hex_proof_has_fixed_width() {
    assert_eq!(format_hex_proof(0), "0x0000000000000000");
    assert_eq!(format_hex_proof(255), "0x00000000000000ff");
    assert_eq!(format_hex_proof(u64::MAX), "0xffffffffffffffff");
    assert_eq!(format_hex_proof(0x0123_4567_89ab_cdef), "0x0123456789abcdef");
}

#[test]
fn hex_proof_matches_std_formatting_and_reads_back() {
    let mut x: u64 = 0x9e37_79b9_7f4a_7c15;
    for _ in 0..200 {
        let text = format_hex_proof(x);
        assert_eq!(text, format!("0x{:016x}", x));
        assert_eq!(text.len(), 18);
        assert_eq!(u64::from_str_radix(&text[2..], 16).unwrap(), x);
        x = x.wrapping_mul(6364136223846793005).wrapping_add(1442695040888963407);
    }
}

#[test]
fn shard_id_is_prefix_and_uuid() {
    assert_eq!(
        format_shard_id("67e55044-10b1-426f-9247-bb680e5fe0c8"),
        "WindHydroPhoenix2026v1-67e55044-10b1-426f-9247-bb680e5fe0c8"
    );
    assert_eq!(format_shard_id(""), "WindHydroPhoenix2026v1-");
}

#[test]
fn fresh_identity_has_v4_uuid_and_hex_proof() {
    let prefix = "WindHydroPhoenix2026v1-";
    for _ in 0..20 {
        let ident = new_shard_identity();
        assert!(ident.shard_id.starts_with(prefix));
        let uuid: Vec<char> = ident.shard_id[prefix.len()..].chars().collect();
        assert_eq!(uuid.len(), 36);
        for (i, c) in uuid.iter().enumerate() {
            if i == 8 || i == 13 || i == 18 || i == 23 {
                assert_eq!(*c, '-');
            } else {
                assert!(c.is_ascii_digit() || ('a'..='f').contains(c));
            }
        }
        assert_eq!(uuid[14], '4');
        assert!(matches!(uuid[19], '8' | '9' | 'a' | 'b'));
        assert_eq!(ident.hex_proof.len(), 18);
        assert!(ident.hex_proof.starts_with("0x"));
        assert!(u64::from_str_radix(&ident.hex_proof[2..], 16).is_ok());
    }
    let a = new_shard_identity();
    let b = new_shard_identity();
    assert_ne!(a.shard_id, b.shard_id);
}

#[test]
fn accepted_check_writes_and_exits_zero() {
    let stage = run(&[
        CheckEvent::BandsLoaded { ok: true },
        CheckEvent::SpecLoaded { ok: true },
        CheckEvent::Evaluated { accepted: true },
    ]);
    assert_eq!(stage, CheckStage::WriteShard);
    let done = next_stage(stage, CheckEvent::ShardWritten { ok: true });
    assert_eq!(done, CheckStage::Done(CheckOutcome::Written));
    assert_eq!(exit_code(CheckOutcome::Written), 0);
}

#[test]
fn rejected_check_builds_nothing_and_exits_two() {
    let stage = run(&[
        CheckEvent::BandsLoaded { ok: true },
        CheckEvent::SpecLoaded { ok: true },
        CheckEvent::Evaluated { accepted: false },
    ]);
    assert_eq!(stage, CheckStage::Done(CheckOutcome::Rejected));
    assert_eq!(next_stage(stage, CheckEvent::ShardWritten { ok: true }), stage);
    assert_eq!(next_stage(stage, CheckEvent::Evaluated { accepted: true }), stage);
    assert_eq!(exit_code(CheckOutcome::Rejected), 2);
}

#[test]
fn load_failures_exit_one() {
    assert_eq!(
        run(&[CheckEvent::BandsLoaded { ok: false }]),
        CheckStage::Done(CheckOutcome::LoadFailed)
    );
    assert_eq!(
        run(&[CheckEvent::BandsLoaded { ok: true }, CheckEvent::SpecLoaded { ok: false }]),
        CheckStage::Done(CheckOutcome::LoadFailed)
    );
    assert_eq!(exit_code(CheckOutcome::LoadFailed), 1);
}

#[test]
fn write_failure_exits_one() {
    let stage = run(&[
        CheckEvent::BandsLoaded { ok: true },
        CheckEvent::SpecLoaded { ok: true },
        CheckEvent::Evaluated { accepted: true },
        CheckEvent::ShardWritten { ok: false },
    ]);
    assert_eq!(stage, CheckStage::Done(CheckOutcome::WriteFailed));
    assert_eq!(exit_code(CheckOutcome::WriteFailed), 1);
}

#[test]
fn out_of_turn_events_are_ignored() {
    assert_eq!(
        run(&[CheckEvent::Evaluated { accepted: true }, CheckEvent::ShardWritten { ok: true }]),
        CheckStage::LoadBands
    );
    assert_eq!(
        next_stage(CheckStage::LoadSpec, CheckEvent::Evaluated { accepted: true }),
        CheckStage::LoadSpec
    );
}
