use runjs::loader::{load_classified, load_source, module_from_emit, LoadError, ModuleSource};
use runjs::media::{MediaType, ModuleKind};

fn ok_text(text: &str) -> Result<String, String> {
    Ok(text.to_string())
}

#[test]
fn plain_script_keeps_its_text() {
    let loaded = load_source("file:///work/main.js", Some("/work/main.js"), ok_text("let x = 1;\n"));
    assert_eq!(
        loaded,
        Ok(ModuleSource {
            kind: ModuleKind::JavaScript,
            code: "let x = 1;\n".to_string(),
            specifier: "file:///work/main.js".to_string(),
        })
    );
}

#[test]
fn json_keeps_its_text_and_is_a_data_module() {
    let loaded = load_source("file:///work/data.json", Some("/work/data.json"), ok_text("{\"a\": 1}"));
    assert_eq!(
        loaded,
        Ok(ModuleSource {
            kind: ModuleKind::Json,
            code: "{\"a\": 1}".to_string(),
            specifier: "file:///work/data.json".to_string(),
        })
    );
}

#[test]
fn typed_script_loses_its_type_syntax() {
    let source = "const answer: number = 42;\nfunction twice(n: number): number { return n * 2; }\n";
    let loaded = load_source("file:///work/main.ts", Some("/work/main.ts"), ok_text(source)).unwrap();
    assert_eq!(loaded.kind, ModuleKind::JavaScript);
    assert_eq!(loaded.specifier, "file:///work/main.ts");
    assert!(loaded.code.contains("const answer = 42;"));
    assert!(loaded.code.contains("function twice(n) {"));
    assert!(!loaded.code.contains(": number"));
    assert_ne!(loaded.code, source);
}

#[test]
fn interface_declarations_are_dropped() {
    let source = "interface Point { x: number }\nexport const p = 1;\n";
    let loaded = load_source("file:///work/p.ts", Some("/work/p.ts"), ok_text(source)).unwrap();
    assert!(!loaded.code.contains("interface"));
    assert!(loaded.code.contains("export const p = 1;"));
}

#[test]
fn jsx_is_turned_into_calls() {
    let source = "export const e = <div>hi</div>;\n";
    let loaded = load_source("file:///work/v.jsx", Some("/work/v.jsx"), ok_text(source)).unwrap();
    assert_eq!(loaded.kind, ModuleKind::JavaScript);
    assert!(!loaded.code.contains("<div>"));
}

#[test]
fn unknown_extension_fails_the_load() {
    let loaded = load_source("file:///work/a.bin", Some("/work/a.bin"), ok_text("let x = 1;"));
    assert_eq!(loaded, Err(LoadError::Classification));
}

#[test]
fn unknown_extension_fails_before_the_read_is_looked_at() {
    let loaded = load_source("file:///work/a.bin", Some("/work/a.bin"), Err("no such file".to_string()));
    assert_eq!(loaded, Err(LoadError::Classification));
}

#[test]
fn failed_read_fails_the_load() {
    let loaded = load_source("file:///work/a.ts", Some("/work/a.ts"), Err("no such file".to_string()));
    assert_eq!(loaded, Err(LoadError::Io("no such file".to_string())));
    let loaded = load_source("file:///work/a.js", Some("/work/a.js"), Err("denied".to_string()));
    assert_eq!(loaded, Err(LoadError::Io("denied".to_string())));
}

#[test]
fn malformed_typed_script_fails_the_load() {
    let loaded = load_source("file:///work/bad.ts", Some("/work/bad.ts"), ok_text("let = = ;"));
    assert!(matches!(loaded, Err(LoadError::Transpile(_))));
}

#[test]
fn malformed_plain_script_is_not_inspected() {
    let loaded = load_source("file:///work/bad.js", Some("/work/bad.js"), ok_text("let = = ;"));
    assert_eq!(loaded.unwrap().code, "let = = ;");
}

#[test]
fn identifier_that_is_no_locator_fails_the_transpile() {
    let loaded = load_source("not a locator", Some("/work/a.ts"), ok_text("let x = 1;"));
    assert!(matches!(loaded, Err(LoadError::Transpile(_))));
}

#[test]
fn loading_twice_gives_the_same_record() {
    let first = load_source("file:///work/a.ts", Some("/work/a.ts"), ok_text("let x: string = 'a';"));
    let second = load_source("file:///work/a.ts", Some("/work/a.ts"), ok_text("let x: string = 'a';"));
    assert!(first.is_ok());
    assert_eq!(first, second);
}

#[test]
fn emitted_text_is_packaged_under_kind_and_identifier() {
    let loaded = module_from_emit(ModuleKind::JavaScript, "file:///m.ts", Ok("let x = 1;".to_string()));
    assert_eq!(
        loaded,
        Ok(ModuleSource {
            kind: ModuleKind::JavaScript,
            code: "let x = 1;".to_string(),
            specifier: "file:///m.ts".to_string(),
        })
    );
}

#[test]
fn transpiler_failure_becomes_a_load_error() {
    let loaded = module_from_emit(ModuleKind::JavaScript, "file:///m.ts", Err("unexpected token".to_string()));
    assert_eq!(loaded, Err(LoadError::Transpile("unexpected token".to_string())));
}

#[test]
fn capital_extension_fails_the_load() {
    let loaded = load_source("file:///work/A.TS", Some("/work/A.TS"), ok_text("let x: number = 1;"));
    assert_eq!(loaded, Err(LoadError::Classification));
}

#[test]
fn byte_order_mark_is_dropped_before_transpiling() {
    let source = "\u{feff}const answer: number = 42;\n";
    let loaded = load_source("file:///work/m.ts", Some("/work/m.ts"), ok_text(source)).unwrap();
    assert!(loaded.code.contains("const answer = 42;"));
    assert!(!loaded.code.starts_with('\u{feff}'));
    let plain = load_source(
        "file:///work/m.ts",
        Some("/work/m.ts"),
        ok_text("const answer: number = 42;\n"),
    )
    .unwrap();
    assert!(plain.code.contains("const answer = 42;"));
}

#[test]
fn several_byte_order_marks_are_dropped() {
    let source = "\u{feff}\u{feff}\u{feff}let x: number = 1;\n";
    let loaded = load_source("file:///work/m.tsx", Some("/work/m.tsx"), ok_text(source)).unwrap();
    assert!(loaded.code.contains("let x = 1;"));
}

#[test]
fn text_of_marks_alone_transpiles_to_no_statement() {
    let loaded = load_source("file:///work/m.ts", Some("/work/m.ts"), ok_text("\u{feff}"));
    assert!(loaded.is_ok());
    let loaded = load_source("file:///work/m.ts", Some("/work/m.ts"), ok_text(""));
    assert!(loaded.is_ok());
}

#[test]
fn byte_order_mark_stays_where_nothing_is_transpiled() {
    let loaded = load_source("file:///work/m.js", Some("/work/m.js"), ok_text("\u{feff}let x = 1;"));
    assert_eq!(loaded.unwrap().code, "\u{feff}let x = 1;");
}

#[test]
fn transpiler_is_given_the_media_type_of_the_path() {
    let source = "export const e = <b>x</b>;\n";
    let as_tsx = load_source("file:///work/v.tsx", Some("/work/v.tsx"), ok_text(source));
    assert!(as_tsx.is_ok());
    let as_ts = load_source("file:///work/v.ts", Some("/work/v.ts"), ok_text(source));
    assert!(matches!(as_ts, Err(LoadError::Transpile(_))));
}

#[test]
fn path_that_is_no_text_fails_the_load() {
    let loaded = load_source("file:///work/a.ts", None, ok_text("let x = 1;"));
    assert_eq!(loaded, Err(LoadError::Classification));
}

#[test]
fn directory_like_path_fails_the_load() {
    let loaded = load_source("file:///work/a.TS/.", Some("/work/a.TS/."), ok_text("let x = 1;"));
    assert_eq!(loaded, Err(LoadError::Classification));
}

#[test]
fn classified_plain_script_keeps_its_text() {
    for media_type in [MediaType::JavaScript, MediaType::Mjs, MediaType::Cjs] {
        let loaded = load_classified(media_type, "file:///work/m.js", ok_text("let = = ;"));
        assert_eq!(
            loaded,
            Ok(ModuleSource {
                kind: ModuleKind::JavaScript,
                code: "let = = ;".to_string(),
                specifier: "file:///work/m.js".to_string(),
            })
        );
    }
}

#[test]
fn classified_json_is_a_data_module() {
    let loaded = load_classified(MediaType::Json, "file:///work/d.json", ok_text("[1, 2]"));
    assert_eq!(
        loaded,
        Ok(ModuleSource {
            kind: ModuleKind::Json,
            code: "[1, 2]".to_string(),
            specifier: "file:///work/d.json".to_string(),
        })
    );
}

#[test]
fn classified_unknown_fails_whatever_was_read() {
    let loaded = load_classified(MediaType::Unknown, "file:///work/a", ok_text("let x = 1;"));
    assert_eq!(loaded, Err(LoadError::Classification));
    let loaded = load_classified(MediaType::Unknown, "file:///work/a", Err("gone".to_string()));
    assert_eq!(loaded, Err(LoadError::Classification));
}

#[test]
fn classified_failed_read_is_an_io_error() {
    for media_type in [MediaType::JavaScript, MediaType::Json, MediaType::Tsx, MediaType::Dts] {
        let loaded = load_classified(media_type, "file:///work/a", Err("gone".to_string()));
        assert_eq!(loaded, Err(LoadError::Io("gone".to_string())));
    }
}

#[test]
fn every_typed_dialect_is_transpiled() {
    let source = "export const n: number = 1;\n";
    let typed = [
        MediaType::TypeScript,
        MediaType::Mts,
        MediaType::Cts,
        MediaType::Tsx,
    ];
    for media_type in typed {
        let loaded = load_classified(media_type, "file:///work/m.ts", ok_text(source)).unwrap();
        assert_eq!(loaded.kind, ModuleKind::JavaScript);
        assert!(!loaded.code.contains(": number"));
        assert_ne!(loaded.code, source);
    }
}

#[test]
fn transpiler_failure_is_the_loads_failure() {
    let typed = [MediaType::Jsx, MediaType::TypeScript, MediaType::Mts, MediaType::Cts, MediaType::Tsx];
    for media_type in typed {
        let loaded = load_classified(media_type, "file:///work/m.ts", ok_text("let x: = ;"));
        assert!(matches!(loaded, Err(LoadError::Transpile(_))));
    }
}

#[test]
fn transpiler_goes_by_the_media_type_it_is_handed() {
    let source = "export const e = <b>x</b>;\n";
    assert!(load_classified(MediaType::Jsx, "file:///work/v", ok_text(source)).is_ok());
    assert!(load_classified(MediaType::Tsx, "file:///work/v", ok_text(source)).is_ok());
    let as_ts = load_classified(MediaType::TypeScript, "file:///work/v", ok_text(source));
    assert!(matches!(as_ts, Err(LoadError::Transpile(_))));
}

#[test]
fn load_source_is_the_load_of_the_paths_media_type() {
    let source = "const a: string = 'x';\n";
    let by_path = load_source("file:///work/m.ts", Some("/work/m.ts"), ok_text(source));
    let by_type = load_classified(MediaType::TypeScript, "file:///work/m.ts", ok_text(source));
    assert!(by_path.is_ok());
    assert_eq!(by_path, by_type);
}
