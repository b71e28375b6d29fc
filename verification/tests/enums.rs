use playground_api::{
    AliasingModel, AssemblyFlavor, Channel, CompileTarget, CrateType, DecodeError,
    DemangleAssembly, Edition, Mode, ProcessAssembly, Wire,
};

#[test]
fn channel_wire_forms() {
    assert_eq!(Channel::Stable.encode(), "stable");
    assert_eq!(Channel::Beta.encode(), "beta");
    assert_eq!(Channel::Nightly.encode(), "nightly");
}

#[test]
fn channel_round_trips() {
    for v in [Channel::Stable, Channel::Beta, Channel::Nightly] {
        assert_eq!(Channel::decode(v.encode()), Ok(v));
    }
}

#[test]
fn channel_rejects_other_text() {
    assert_eq!(
        Channel::decode("Stable"),
        Err(DecodeError { field: "channel".to_owned(), value: "Stable".to_owned() })
    );
    assert_eq!(
        Channel::decode(""),
        Err(DecodeError { field: "channel".to_owned(), value: String::new() })
    );
    assert_eq!(
        Channel::decode("stable "),
        Err(DecodeError { field: "channel".to_owned(), value: "stable ".to_owned() })
    );
}

#[test]
fn edition_is_a_bare_year() {
    assert_eq!(Edition::Edition2015.encode(), "2015");
    assert_eq!(Edition::Edition2018.encode(), "2018");
    assert_eq!(Edition::Edition2021.encode(), "2021");
    assert_eq!(Edition::Edition2024.encode(), "2024");
}

#[test]
fn edition_round_trips() {
    for v in [
        Edition::Edition2015,
        Edition::Edition2018,
        Edition::Edition2021,
        Edition::Edition2024,
    ] {
        assert_eq!(Edition::decode(v.encode()), Ok(v));
    }
}

#[test]
fn edition_rejects_other_text() {
    assert_eq!(
        Edition::decode("2019"),
        Err(DecodeError { field: "edition".to_owned(), value: "2019".to_owned() })
    );
    assert_eq!(
        Edition::decode("Edition2021"),
        Err(DecodeError { field: "edition".to_owned(), value: "Edition2021".to_owned() })
    );
}

#[test]
fn crate_type_round_trips() {
    assert_eq!(CrateType::Binary.encode(), "bin");
    assert_eq!(CrateType::Library.encode(), "lib");
    for v in [CrateType::Binary, CrateType::Library] {
        assert_eq!(CrateType::decode(v.encode()), Ok(v));
    }
    assert_eq!(
        CrateType::decode("binary"),
        Err(DecodeError { field: "crateType".to_owned(), value: "binary".to_owned() })
    );
}

#[test]
fn mode_round_trips() {
    assert_eq!(Mode::Debug.encode(), "debug");
    assert_eq!(Mode::Release.encode(), "release");
    for v in [Mode::Debug, Mode::Release] {
        assert_eq!(Mode::decode(v.encode()), Ok(v));
    }
    assert_eq!(
        Mode::decode("fast"),
        Err(DecodeError { field: "mode".to_owned(), value: "fast".to_owned() })
    );
}

#[test]
fn assembly_flavor_round_trips() {
    assert_eq!(AssemblyFlavor::Att.encode(), "att");
    assert_eq!(AssemblyFlavor::Intel.encode(), "intel");
    for v in [AssemblyFlavor::Att, AssemblyFlavor::Intel] {
        assert_eq!(AssemblyFlavor::decode(v.encode()), Ok(v));
    }
    assert_eq!(
        AssemblyFlavor::decode("at&t"),
        Err(DecodeError { field: "assemblyFlavor".to_owned(), value: "at&t".to_owned() })
    );
}

#[test]
fn demangle_assembly_round_trips() {
    assert_eq!(DemangleAssembly::Demangle.encode(), "demangle");
    assert_eq!(DemangleAssembly::Mangle.encode(), "mangle");
    for v in [DemangleAssembly::Demangle, DemangleAssembly::Mangle] {
        assert_eq!(DemangleAssembly::decode(v.encode()), Ok(v));
    }
    assert_eq!(
        DemangleAssembly::decode("yes"),
        Err(DecodeError { field: "demangleAssembly".to_owned(), value: "yes".to_owned() })
    );
}

#[test]
fn process_assembly_round_trips() {
    assert_eq!(ProcessAssembly::Filter.encode(), "filter");
    assert_eq!(ProcessAssembly::Raw.encode(), "raw");
    for v in [ProcessAssembly::Filter, ProcessAssembly::Raw] {
        assert_eq!(ProcessAssembly::decode(v.encode()), Ok(v));
    }
    assert_eq!(
        ProcessAssembly::decode("RAW"),
        Err(DecodeError { field: "processAssembly".to_owned(), value: "RAW".to_owned() })
    );
}

#[test]
fn aliasing_model_round_trips() {
    assert_eq!(AliasingModel::Stacked.encode(), "stacked");
    assert_eq!(AliasingModel::Tree.encode(), "tree");
    for v in [AliasingModel::Stacked, AliasingModel::Tree] {
        assert_eq!(AliasingModel::decode(v.encode()), Ok(v));
    }
    assert_eq!(
        AliasingModel::decode("none"),
        Err(DecodeError { field: "aliasingModel".to_owned(), value: "none".to_owned() })
    );
}

fn all_targets() -> Vec<CompileTarget> {
    let mut all = vec![
        CompileTarget::Hir,
        CompileTarget::LlvmIr,
        CompileTarget::Mir,
        CompileTarget::Wasm,
    ];
    for f in [AssemblyFlavor::Att, AssemblyFlavor::Intel] {
        for d in [DemangleAssembly::Demangle, DemangleAssembly::Mangle] {
            for p in [ProcessAssembly::Filter, ProcessAssembly::Raw] {
                all.push(CompileTarget::Assembly(f, d, p));
            }
        }
    }
    all
}

#[test]
fn compile_target_wire_names() {
    assert_eq!(
        CompileTarget::Assembly(
            AssemblyFlavor::Att,
            DemangleAssembly::Demangle,
            ProcessAssembly::Filter
        )
        .encode(),
        "asm"
    );
    assert_eq!(CompileTarget::Hir.encode(), "hir");
    assert_eq!(CompileTarget::LlvmIr.encode(), "llvmir");
    assert_eq!(CompileTarget::Mir.encode(), "mir");
    assert_eq!(CompileTarget::Wasm.encode(), "wasm");
}

#[test]
fn compile_target_round_trips() {
    for v in all_targets() {
        let back = CompileTarget::decode(
            v.encode(),
            v.assembly_flavor(),
            v.demangle_assembly(),
            v.process_assembly(),
        );
        assert_eq!(back, Ok(v));
    }
}

#[test]
fn compile_target_settings_only_with_assembly() {
    let listing = CompileTarget::Assembly(
        AssemblyFlavor::Intel,
        DemangleAssembly::Mangle,
        ProcessAssembly::Raw,
    );
    assert_eq!(listing.assembly_flavor(), Some(AssemblyFlavor::Intel));
    assert_eq!(listing.demangle_assembly(), Some(DemangleAssembly::Mangle));
    assert_eq!(listing.process_assembly(), Some(ProcessAssembly::Raw));
    for v in [CompileTarget::Hir, CompileTarget::LlvmIr, CompileTarget::Mir, CompileTarget::Wasm] {
        assert_eq!(v.assembly_flavor(), None);
        assert_eq!(v.demangle_assembly(), None);
        assert_eq!(v.process_assembly(), None);
    }
}

#[test]
fn compile_target_rejects_unknown_name() {
    assert_eq!(
        CompileTarget::decode("llvm-ir", None, None, None),
        Err(DecodeError { field: "target".to_owned(), value: "llvm-ir".to_owned() })
    );
    assert_eq!(
        CompileTarget::decode(
            "assembly",
            Some(AssemblyFlavor::Att),
            Some(DemangleAssembly::Demangle),
            Some(ProcessAssembly::Filter)
        ),
        Err(DecodeError { field: "target".to_owned(), value: "assembly".to_owned() })
    );
}

#[test]
fn compile_target_assembly_needs_all_settings() {
    let f = Some(AssemblyFlavor::Att);
    let d = Some(DemangleAssembly::Demangle);
    let p = Some(ProcessAssembly::Filter);
    assert_eq!(
        CompileTarget::decode("asm", None, d, p),
        Err(DecodeError { field: "assemblyFlavor".to_owned(), value: String::new() })
    );
    assert_eq!(
        CompileTarget::decode("asm", f, None, p),
        Err(DecodeError { field: "demangleAssembly".to_owned(), value: String::new() })
    );
    assert_eq!(
        CompileTarget::decode("asm", f, d, None),
        Err(DecodeError { field: "processAssembly".to_owned(), value: String::new() })
    );
    assert_eq!(
        CompileTarget::decode("asm", None, None, None),
        Err(DecodeError { field: "assemblyFlavor".to_owned(), value: String::new() })
    );
}

#[test]
fn compile_target_other_targets_allow_no_settings() {
    assert_eq!(
        CompileTarget::decode("mir", Some(AssemblyFlavor::Intel), None, None),
        Err(DecodeError { field: "assemblyFlavor".to_owned(), value: "intel".to_owned() })
    );
    assert_eq!(
        CompileTarget::decode("hir", None, Some(DemangleAssembly::Mangle), None),
        Err(DecodeError { field: "demangleAssembly".to_owned(), value: "mangle".to_owned() })
    );
    assert_eq!(
        CompileTarget::decode("wasm", None, None, Some(ProcessAssembly::Raw)),
        Err(DecodeError { field: "processAssembly".to_owned(), value: "raw".to_owned() })
    );
    assert_eq!(CompileTarget::decode("llvmir", None, None, None), Ok(CompileTarget::LlvmIr));
}
