use rspack_plugin_runtime::common_js_chunk_format::CommonJsChunkFormatPlugin;
use rspack_plugin_runtime::error::{Collaborator, LinkFault, Missing, RenderError};
use rspack_plugin_runtime::filename::FilenameContext;
use rspack_plugin_runtime::graph::{
    Chunk, ChunkGroup, ChunkKey, EntryModule, GroupKey, ModuleKey, Snapshot,
};
use rspack_plugin_runtime::render::{RenderStep, Replies, Request};
use rspack_plugin_runtime::requirements::{RequirementAccumulator, RuntimeRequirement};
use rspack_plugin_runtime::source::{ChunkSource, Statement, StatementKind};

/// What the collaborators of a test answer.
struct Host {
    module_table: Result<String, String>,
    runtime_table: Result<String, String>,
    filename_failure: Option<String>,
    entry_code: String,
}

fn host() -> Host {
    Host {
        module_table: Ok("{}".to_string()),
        runtime_table: Ok("function(__webpack_require__) {}".to_string()),
        filename_failure: None,
        entry_code: "__webpack_require__('./src/index.js');".to_string(),
    }
}

/// A template engine that substitutes the fields of the context.
fn substitute(template: &str, context: &FilenameContext) -> String {
    let mut path = template.to_string();
    if let Some(name) = &context.name {
        path = path.replace("[name]", name);
    }
    path = path.replace("[ext]", &context.extension);
    path = path.replace("[id]", &context.id);
    path = path.replace("[contenthash]", &context.content_hash);
    path = path.replace("[chunkhash]", &context.chunk_hash);
    path.replace("[hash]", &context.hash)
}

/// Renders `chunk` to the end, and lists the requests that were made.
fn run(
    snapshot: &Snapshot,
    chunk: ChunkKey,
    host: &Host,
) -> (Result<ChunkSource, RenderError>, Vec<Request>) {
    let plugin = CommonJsChunkFormatPlugin {};
    let mut replies = Replies::new();
    let mut requests: Vec<Request> = Vec::new();
    loop {
        assert!(requests.len() <= 4);
        match plugin.render_chunk(snapshot, chunk, &replies) {
            Err(error) => return (Err(error), requests),
            Ok(RenderStep::Done(source)) => return (Ok(source), requests),
            Ok(RenderStep::Need(request)) => {
                match &request {
                    Request::ModuleTable { .. } => {
                        replies.module_table = Some(host.module_table.clone());
                    }
                    Request::RuntimeModuleTable { .. } => {
                        replies.runtime_table = Some(host.runtime_table.clone());
                    }
                    Request::RuntimeFilename { template, context } => {
                        replies.runtime_filename = Some(match &host.filename_failure {
                            Some(message) => Err(message.clone()),
                            None => Ok(substitute(template, context)),
                        });
                    }
                    Request::EntryCode { .. } => {
                        replies.entry_code = Some(host.entry_code.clone());
                    }
                }
                requests.push(request);
            }
        }
    }
}

fn chunk(id: &str, name: Option<&str>, render_hash: Option<&str>) -> Chunk {
    Chunk {
        id: id.to_string(),
        name: name.map(|n| n.to_string()),
        modules: vec![],
        runtime_modules: vec![],
        entry_modules: vec![],
        render_hash: render_hash.map(|h| h.to_string()),
    }
}

const MAIN: ChunkKey = ChunkKey(0);
const RUNTIME: ChunkKey = ChunkKey(1);
const LAZY: ChunkKey = ChunkKey(2);

/// Chunk 0 is the entry chunk `main`, chunk 1 its runtime chunk `runtime`,
/// chunk 2 a chunk without entry modules. Group 0 is the entry point.
fn entry_snapshot(template: &str) -> Snapshot {
    let mut main = chunk("main", Some("main"), Some("ffff00"));
    main.modules = vec![ModuleKey(10), ModuleKey(11)];
    main.entry_modules = vec![EntryModule { module: ModuleKey(10), group: GroupKey(0) }];
    let mut runtime = chunk("runtime", Some("runtime"), Some("abc123"));
    runtime.runtime_modules = vec![ModuleKey(7), ModuleKey(3)];
    let mut lazy = chunk("lazy", None, Some("0000aa"));
    lazy.modules = vec![ModuleKey(12)];
    Snapshot {
        chunks: vec![main, runtime, lazy],
        groups: vec![
            ChunkGroup { chunks: vec![RUNTIME, MAIN], runtime_chunk: RUNTIME },
            ChunkGroup { chunks: vec![LAZY], runtime_chunk: RUNTIME },
        ],
        chunk_filename: template.to_string(),
    }
}

fn kinds(source: &ChunkSource) -> Vec<StatementKind> {
    source.statements.iter().map(|s| s.kind).collect()
}

fn contributed(snapshot: &Snapshot, chunk: ChunkKey) -> Result<Vec<RuntimeRequirement>, RenderError> {
    let plugin = CommonJsChunkFormatPlugin {};
    let mut accumulator = RequirementAccumulator::new();
    plugin.additional_chunk_runtime_requirements(snapshot, chunk, &mut accumulator)?;
    let all = [
        RuntimeRequirement::Require,
        RuntimeRequirement::ModuleCache,
        RuntimeRequirement::ModuleFactories,
        RuntimeRequirement::EnsureChunk,
        RuntimeRequirement::PublicPath,
        RuntimeRequirement::ExternalInstallChunk,
    ];
    Ok(all.into_iter().filter(|r| accumulator.contains(*r)).collect())
}

#[test]
fn plugin_name() {
    assert_eq!(CommonJsChunkFormatPlugin {}.name(), "CommonJsChunkFormatPlugin");
}

#[test]
fn apply_succeeds() {
    let mut plugin = CommonJsChunkFormatPlugin {};
    assert_eq!(plugin.apply(), Ok(()));
}

#[test]
fn statement_texts() {
    assert_eq!(Statement::identifier_list("main").text, "exports.ids = ['main'];\n");
    assert_eq!(Statement::module_table("{}").text, "exports.modules = {};\n");
    assert_eq!(Statement::runtime_table("{}").text, "exports.runtime = {};\n");
    assert_eq!(
        Statement::load("runtime.js").text,
        "\nvar __webpack_require__ = require('./runtime.js')"
    );
    assert_eq!(Statement::install().text, "\n__webpack_require__.C(exports)\n");
    assert_eq!(Statement::execution("run();").text, "run();");
    assert_eq!(Statement::identifier_list("main").kind, StatementKind::IdentifierList);
    assert_eq!(Statement::module_table("{}").kind, StatementKind::ModuleTable);
    assert_eq!(Statement::runtime_table("{}").kind, StatementKind::RuntimeTable);
    assert_eq!(Statement::load("runtime.js").kind, StatementKind::Load);
    assert_eq!(Statement::install().kind, StatementKind::Install);
    assert_eq!(Statement::execution("run();").kind, StatementKind::Execution);
}

#[test]
fn text_of_an_empty_source_is_empty() {
    assert_eq!(ChunkSource { statements: vec![] }.text(), "");
}

#[test]
fn text_concatenates_in_order() {
    let source = ChunkSource {
        statements: vec![
            Statement { kind: StatementKind::ModuleTable, text: "b".to_string() },
            Statement { kind: StatementKind::IdentifierList, text: "a".to_string() },
            Statement { kind: StatementKind::Execution, text: "c".to_string() },
        ],
    };
    assert_eq!(source.text(), "bac");
}

#[test]
fn runtime_host_contributes_nothing() {
    let snapshot = entry_snapshot("[name].js");
    assert_eq!(contributed(&snapshot, RUNTIME), Ok(vec![]));
}

#[test]
fn runtime_host_with_entry_modules_contributes_nothing_and_links_nothing() {
    let mut snapshot = entry_snapshot("[name].js");
    snapshot.groups[0].runtime_chunk = MAIN;
    snapshot.groups[1].runtime_chunk = MAIN;
    assert!(snapshot.has_runtime(MAIN));
    assert_eq!(contributed(&snapshot, MAIN), Ok(vec![]));
    let (source, requests) = run(&snapshot, MAIN, &host());
    let source = source.unwrap();
    assert_eq!(requests, vec![Request::ModuleTable { chunk: MAIN }]);
    assert_eq!(kinds(&source), vec![StatementKind::IdentifierList, StatementKind::ModuleTable]);
    assert_eq!(source.text(), "exports.ids = ['main'];\nexports.modules = {};\n");
}

#[test]
fn runtime_host_renders_its_tables_only() {
    let snapshot = entry_snapshot("[name].js");
    let (source, requests) = run(&snapshot, RUNTIME, &host());
    let source = source.unwrap();
    assert_eq!(
        requests,
        vec![
            Request::ModuleTable { chunk: RUNTIME },
            Request::RuntimeModuleTable { chunk: RUNTIME, modules: vec![ModuleKey(7), ModuleKey(3)] },
        ]
    );
    assert_eq!(
        kinds(&source),
        vec![StatementKind::IdentifierList, StatementKind::ModuleTable, StatementKind::RuntimeTable]
    );
    assert_eq!(
        source.text(),
        "exports.ids = ['runtime'];\nexports.modules = {};\nexports.runtime = function(__webpack_require__) {};\n"
    );
}

#[test]
fn chunk_without_entry_modules_contributes_nothing_and_links_nothing() {
    let snapshot = entry_snapshot("[name].js");
    assert!(!snapshot.has_runtime(LAZY));
    assert_eq!(contributed(&snapshot, LAZY), Ok(vec![]));
    let (source, requests) = run(&snapshot, LAZY, &host());
    let source = source.unwrap();
    assert_eq!(requests, vec![Request::ModuleTable { chunk: LAZY }]);
    assert_eq!(kinds(&source), vec![StatementKind::IdentifierList, StatementKind::ModuleTable]);
    assert_eq!(source.text(), "exports.ids = ['lazy'];\nexports.modules = {};\n");
}

#[test]
fn replies_that_were_not_asked_for_are_ignored() {
    let snapshot = entry_snapshot("[name].js");
    let replies = Replies {
        module_table: Some(Ok("{}".to_string())),
        runtime_table: Some(Ok("unused".to_string())),
        runtime_filename: Some(Ok("unused.js".to_string())),
        entry_code: Some("unused();".to_string()),
    };
    let step = CommonJsChunkFormatPlugin {}.render_chunk(&snapshot, LAZY, &replies).unwrap();
    match step {
        RenderStep::Done(source) => {
            assert_eq!(source.text(), "exports.ids = ['lazy'];\nexports.modules = {};\n")
        }
        RenderStep::Need(request) => panic!("unexpected request {:?}", request),
    }
}

#[test]
fn entry_chunk_contributes_require_and_install() {
    let snapshot = entry_snapshot("[name].js");
    assert_eq!(
        contributed(&snapshot, MAIN),
        Ok(vec![RuntimeRequirement::Require, RuntimeRequirement::ExternalInstallChunk])
    );
}

#[test]
fn contribution_keeps_what_was_there() {
    let snapshot = entry_snapshot("[name].js");
    let plugin = CommonJsChunkFormatPlugin {};
    let mut accumulator = RequirementAccumulator::new();
    accumulator.insert(RuntimeRequirement::PublicPath);
    assert_eq!(
        plugin.additional_chunk_runtime_requirements(&snapshot, MAIN, &mut accumulator),
        Ok(())
    );
    assert!(accumulator.contains(RuntimeRequirement::PublicPath));
    assert!(accumulator.contains(RuntimeRequirement::Require));
    assert!(accumulator.contains(RuntimeRequirement::ExternalInstallChunk));
    assert_eq!(accumulator.freeze().len(), 3);
}

#[test]
fn contribution_for_a_missing_chunk_is_reported() {
    let snapshot = entry_snapshot("[name].js");
    let plugin = CommonJsChunkFormatPlugin {};
    let mut accumulator = RequirementAccumulator::new();
    accumulator.insert(RuntimeRequirement::PublicPath);
    assert_eq!(
        plugin.additional_chunk_runtime_requirements(&snapshot, ChunkKey(3), &mut accumulator),
        Err(RenderError::GraphLookupFailure(Missing::Chunk))
    );
    let frozen = accumulator.freeze();
    assert_eq!(frozen.len(), 1);
    assert!(frozen.contains(RuntimeRequirement::PublicPath));
}

#[test]
fn entry_chunk_loads_installs_and_executes_in_that_order() {
    let snapshot = entry_snapshot("[name].js");
    let (source, requests) = run(&snapshot, MAIN, &host());
    let source = source.unwrap();
    assert_eq!(requests.len(), 3);
    assert_eq!(requests[0], Request::ModuleTable { chunk: MAIN });
    assert!(matches!(requests[1], Request::RuntimeFilename { .. }));
    assert_eq!(requests[2], Request::EntryCode { chunk: MAIN });
    assert_eq!(
        kinds(&source),
        vec![
            StatementKind::IdentifierList,
            StatementKind::ModuleTable,
            StatementKind::Load,
            StatementKind::Install,
            StatementKind::Execution,
        ]
    );
    let text = source.text();
    assert_eq!(
        text,
        "exports.ids = ['main'];\nexports.modules = {};\n\nvar __webpack_require__ = require('./runtime.js')\n__webpack_require__.C(exports)\n__webpack_require__('./src/index.js');"
    );
    let load = text.find("var __webpack_require__ = require(").unwrap();
    let install = text.find("__webpack_require__.C(exports)").unwrap();
    let execute = text.find("__webpack_require__('./src/index.js');").unwrap();
    assert!(load < install);
    assert!(install < execute);
}

#[test]
fn entry_chunk_with_runtime_modules_emits_their_table_before_the_link() {
    let mut snapshot = entry_snapshot("[name].js");
    snapshot.chunks[0].runtime_modules = vec![ModuleKey(5)];
    let (source, requests) = run(&snapshot, MAIN, &host());
    let source = source.unwrap();
    assert_eq!(requests.len(), 4);
    assert_eq!(
        requests[1],
        Request::RuntimeModuleTable { chunk: MAIN, modules: vec![ModuleKey(5)] }
    );
    assert_eq!(
        kinds(&source),
        vec![
            StatementKind::IdentifierList,
            StatementKind::ModuleTable,
            StatementKind::RuntimeTable,
            StatementKind::Load,
            StatementKind::Install,
            StatementKind::Execution,
        ]
    );
    assert_eq!(
        source.text(),
        "exports.ids = ['main'];\nexports.modules = {};\nexports.runtime = function(__webpack_require__) {};\n\nvar __webpack_require__ = require('./runtime.js')\n__webpack_require__.C(exports)\n__webpack_require__('./src/index.js');"
    );
}

#[test]
fn runtime_link_resolves_name_and_hash() {
    let mut snapshot = entry_snapshot("[name].[hash].js");
    snapshot.chunks = vec![snapshot.chunks[0].clone(), snapshot.chunks[1].clone()];
    snapshot.groups = vec![ChunkGroup { chunks: vec![MAIN], runtime_chunk: RUNTIME }];
    let (source, requests) = run(&snapshot, MAIN, &host());
    let source = source.unwrap();
    assert_eq!(
        requests[1],
        Request::RuntimeFilename {
            template: "[name].[hash].js".to_string(),
            context: FilenameContext {
                name: Some("runtime".to_string()),
                extension: ".js".to_string(),
                id: "runtime".to_string(),
                content_hash: "abc123".to_string(),
                chunk_hash: "abc123".to_string(),
                hash: "abc123".to_string(),
            },
        }
    );
    assert_eq!(
        source.statements[2],
        Statement {
            kind: StatementKind::Load,
            text: "\nvar __webpack_require__ = require('./runtime.abc123.js')".to_string(),
        }
    );
    assert!(source.text().contains("require('./runtime.abc123.js')"));
}

#[test]
fn runtime_modules_are_requested_in_registration_order() {
    let mut snapshot = entry_snapshot("[name].js");
    let a = ModuleKey(9);
    let b = ModuleKey(2);
    snapshot.chunks[2].runtime_modules = vec![a, b];
    let mut answers = host();
    answers.runtime_table = Ok("[A, B]".to_string());
    let (source, requests) = run(&snapshot, LAZY, &answers);
    let source = source.unwrap();
    assert_eq!(requests[1], Request::RuntimeModuleTable { chunk: LAZY, modules: vec![a, b] });
    assert_ne!(requests[1], Request::RuntimeModuleTable { chunk: LAZY, modules: vec![b, a] });
    assert_eq!(
        source.statements[2],
        Statement {
            kind: StatementKind::RuntimeTable,
            text: "exports.runtime = [A, B];\n".to_string(),
        }
    );
}

#[test]
fn rendering_twice_gives_the_same_bytes() {
    let snapshot = entry_snapshot("[id].[contenthash].js");
    let (first, first_requests) = run(&snapshot, MAIN, &host());
    let (second, second_requests) = run(&snapshot, MAIN, &host());
    assert_eq!(first, second);
    assert_eq!(first_requests, second_requests);
    assert_eq!(first.unwrap().text().into_bytes(), second.unwrap().text().into_bytes());
}

#[test]
fn the_earliest_group_is_the_entry_point() {
    let mut snapshot = entry_snapshot("[name].js");
    snapshot.chunks.push(chunk("other-runtime", Some("other"), Some("123abc")));
    snapshot.groups.push(ChunkGroup { chunks: vec![MAIN], runtime_chunk: ChunkKey(3) });
    let late = EntryModule { module: ModuleKey(11), group: GroupKey(2) };
    let early = EntryModule { module: ModuleKey(10), group: GroupKey(1) };
    for entries in [vec![late, early], vec![early, late], vec![late, early, late]] {
        snapshot.chunks[0].entry_modules = entries;
        assert_eq!(snapshot.chunks[0].entry_point(), Some(GroupKey(1)));
        let (source, _) = run(&snapshot, MAIN, &host());
        assert_eq!(
            source.unwrap().statements[2].text,
            "\nvar __webpack_require__ = require('./runtime.js')"
        );
    }
    snapshot.chunks[0].entry_modules = vec![late];
    assert_eq!(snapshot.chunks[0].entry_point(), Some(GroupKey(2)));
    let (source, _) = run(&snapshot, MAIN, &host());
    assert_eq!(
        source.unwrap().statements[2].text,
        "\nvar __webpack_require__ = require('./other.js')"
    );
}

#[test]
fn render_of_a_missing_chunk_fails() {
    let snapshot = entry_snapshot("[name].js");
    let (source, requests) = run(&snapshot, ChunkKey(3), &host());
    assert_eq!(source, Err(RenderError::GraphLookupFailure(Missing::Chunk)));
    assert!(requests.is_empty());
}

#[test]
fn render_fails_where_the_entry_point_is_missing() {
    let mut snapshot = entry_snapshot("[name].js");
    snapshot.chunks[0].entry_modules[0].group = GroupKey(2);
    let (source, requests) = run(&snapshot, MAIN, &host());
    assert_eq!(source, Err(RenderError::GraphLookupFailure(Missing::EntryPoint)));
    assert_eq!(requests, vec![Request::ModuleTable { chunk: MAIN }]);
}

#[test]
fn render_fails_where_the_runtime_chunk_is_missing() {
    let mut snapshot = entry_snapshot("[name].js");
    snapshot.groups[0].runtime_chunk = ChunkKey(3);
    let (source, _) = run(&snapshot, MAIN, &host());
    assert_eq!(source, Err(RenderError::GraphLookupFailure(Missing::RuntimeChunk)));
}

#[test]
fn render_fails_where_the_runtime_chunk_has_no_hash() {
    let mut snapshot = entry_snapshot("[name].js");
    snapshot.chunks[1].render_hash = None;
    let (source, requests) = run(&snapshot, MAIN, &host());
    assert_eq!(source, Err(RenderError::UnresolvedRuntimeLink(LinkFault::MissingHash)));
    assert_eq!(requests, vec![Request::ModuleTable { chunk: MAIN }]);
}

#[test]
fn render_fails_where_a_placeholder_stays_unresolved() {
    let snapshot = entry_snapshot("[name].[fullhash].js");
    let (source, requests) = run(&snapshot, MAIN, &host());
    assert_eq!(source, Err(RenderError::UnresolvedRuntimeLink(LinkFault::UnresolvedPlaceholder)));
    assert_eq!(requests.len(), 2);
}

#[test]
fn render_fails_where_an_unnamed_runtime_chunk_is_linked_by_name() {
    let mut snapshot = entry_snapshot("[name].js");
    snapshot.chunks[1].name = None;
    let (source, _) = run(&snapshot, MAIN, &host());
    assert_eq!(source, Err(RenderError::UnresolvedRuntimeLink(LinkFault::UnresolvedPlaceholder)));
}

#[test]
fn render_links_an_unnamed_runtime_chunk_by_id() {
    let mut snapshot = entry_snapshot("[id].js");
    snapshot.chunks[1].name = None;
    let (source, _) = run(&snapshot, MAIN, &host());
    assert_eq!(
        source.unwrap().statements[2].text,
        "\nvar __webpack_require__ = require('./runtime.js')"
    );
}

#[test]
fn module_renderer_failure_is_passed_on() {
    let snapshot = entry_snapshot("[name].js");
    let mut answers = host();
    answers.module_table = Err("module build failed".to_string());
    let (source, _) = run(&snapshot, MAIN, &answers);
    assert_eq!(
        source,
        Err(RenderError::CollaboratorFailure(
            Collaborator::ModuleRenderer,
            "module build failed".to_string()
        ))
    );
}

#[test]
fn module_renderer_failure_comes_before_a_lookup_failure() {
    let mut snapshot = entry_snapshot("[name].js");
    snapshot.chunks[0].entry_modules[0].group = GroupKey(9);
    let mut answers = host();
    answers.module_table = Err("module build failed".to_string());
    let (source, _) = run(&snapshot, MAIN, &answers);
    assert_eq!(
        source,
        Err(RenderError::CollaboratorFailure(
            Collaborator::ModuleRenderer,
            "module build failed".to_string()
        ))
    );
}

#[test]
fn runtime_module_renderer_failure_is_passed_on() {
    let snapshot = entry_snapshot("[name].js");
    let mut answers = host();
    answers.runtime_table = Err("no runtime".to_string());
    let (source, requests) = run(&snapshot, RUNTIME, &answers);
    assert_eq!(
        source,
        Err(RenderError::CollaboratorFailure(
            Collaborator::RuntimeModuleRenderer,
            "no runtime".to_string()
        ))
    );
    assert_eq!(requests.len(), 2);
}

#[test]
fn template_engine_failure_is_passed_on() {
    let snapshot = entry_snapshot("[name].js");
    let mut answers = host();
    answers.filename_failure = Some("bad template".to_string());
    let (source, _) = run(&snapshot, MAIN, &answers);
    assert_eq!(
        source,
        Err(RenderError::CollaboratorFailure(
            Collaborator::TemplateEngine,
            "bad template".to_string()
        ))
    );
}

#[test]
fn error_messages() {
    assert_eq!(RenderError::GraphLookupFailure(Missing::Chunk).message(), "chunk not found");
    assert_eq!(
        RenderError::GraphLookupFailure(Missing::EntryPoint).message(),
        "should has entry point"
    );
    assert_eq!(
        RenderError::GraphLookupFailure(Missing::RuntimeChunk).message(),
        "should has runtime chunk"
    );
    assert_eq!(
        RenderError::UnresolvedRuntimeLink(LinkFault::MissingHash).message(),
        "runtime chunk has no render hash"
    );
    assert_eq!(
        RenderError::UnresolvedRuntimeLink(LinkFault::UnresolvedPlaceholder).message(),
        "runtime chunk filename has an unresolved placeholder"
    );
    assert_eq!(
        RenderError::CollaboratorFailure(Collaborator::TemplateEngine, "as it came".to_string())
            .message(),
        "as it came"
    );
}

#[test]
fn a_failure_in_one_chunk_leaves_the_others_alone() {
    let sound = entry_snapshot("[name].js");
    let mut damaged = sound.clone();
    damaged.chunks[0].entry_modules = vec![EntryModule { module: ModuleKey(10), group: GroupKey(7) }];
    let (broken, _) = run(&damaged, MAIN, &host());
    assert_eq!(broken, Err(RenderError::GraphLookupFailure(Missing::EntryPoint)));
    for other in [RUNTIME, LAZY] {
        let (before, _) = run(&sound, other, &host());
        let (after, _) = run(&damaged, other, &host());
        assert!(before.is_ok());
        assert_eq!(before, after);
        assert_eq!(contributed(&sound, other), contributed(&damaged, other));
    }
    assert_eq!(damaged.chunks[1], sound.chunks[1]);
    assert_eq!(damaged.groups, sound.groups);
}

#[test]
fn a_failed_render_does_not_change_the_snapshot() {
    let snapshot = entry_snapshot("[name].js");
    let before = snapshot.clone();
    let (failed, _) = run(&snapshot, ChunkKey(8), &host());
    assert!(failed.is_err());
    assert_eq!(snapshot, before);
    let (rendered, _) = run(&snapshot, LAZY, &host());
    assert_eq!(rendered.unwrap().text(), "exports.ids = ['lazy'];\nexports.modules = {};\n");
}

#[test]
fn snapshot_lookups() {
    let snapshot = entry_snapshot("[name].js");
    assert_eq!(snapshot.chunk(MAIN).map(|c| c.id.as_str()), Some("main"));
    assert_eq!(snapshot.chunk(LAZY).map(|c| c.id.as_str()), Some("lazy"));
    assert_eq!(snapshot.chunk(ChunkKey(3)), None);
    assert_eq!(snapshot.group(GroupKey(1)).map(|g| g.chunks.clone()), Some(vec![LAZY]));
    assert_eq!(snapshot.group(GroupKey(2)), None);
    assert!(snapshot.has_runtime(RUNTIME));
    assert!(!snapshot.has_runtime(MAIN));
    assert!(!snapshot.has_runtime(ChunkKey(3)));
    assert_eq!(snapshot.runtime_chunk_of(GroupKey(0)), Ok(RUNTIME));
    assert_eq!(
        snapshot.runtime_chunk_of(GroupKey(2)),
        Err(RenderError::GraphLookupFailure(Missing::EntryPoint))
    );
}

#[test]
fn chunk_entry_queries() {
    let snapshot = entry_snapshot("[name].js");
    assert_eq!(snapshot.chunks[0].number_of_entry_modules(), 1);
    assert!(snapshot.chunks[0].has_entry_module());
    assert_eq!(snapshot.chunks[0].entry_point(), Some(GroupKey(0)));
    assert_eq!(snapshot.chunks[2].number_of_entry_modules(), 0);
    assert!(!snapshot.chunks[2].has_entry_module());
    assert_eq!(snapshot.chunks[2].entry_point(), None);
}

#[test]
fn consistency_of_a_graph() {
    let sound = entry_snapshot("[name].js");
    assert!(sound.is_consistent());
    let mut no_group = sound.clone();
    no_group.chunks[0].entry_modules.push(EntryModule { module: ModuleKey(11), group: GroupKey(2) });
    assert!(!no_group.is_consistent());
    let mut no_runtime = sound.clone();
    no_runtime.groups[0].runtime_chunk = ChunkKey(3);
    assert!(!no_runtime.is_consistent());
    let mut unused_group = sound.clone();
    unused_group.groups[1].runtime_chunk = ChunkKey(3);
    assert!(unused_group.is_consistent());
    let empty = Snapshot { chunks: vec![], groups: vec![], chunk_filename: String::new() };
    assert!(empty.is_consistent());
}
