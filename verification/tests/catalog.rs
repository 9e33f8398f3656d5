use msc_agent::components::{
    AddOnKind, AddonPlanEntry, AddonServer, AddonUpdateBucket, CatalogFlavor, CatalogHit,
    CatalogTarget, ComponentServer, HelperInstall, PluginMetadata, addons_response,
    addons_unavailable, catalog_search_response, catalog_target, component_rows,
};
use msc_agent::modpacks::{
    InspectedFormat, ManualDownload, ModpackInspection, PinnedVersion, modpack_inspection_response,
};

fn paper() -> CatalogFlavor {
    CatalogFlavor { raw_name: "paper".into(), add_on_kind: Some(AddOnKind::Plugin) }
}

fn vanilla() -> CatalogFlavor {
    CatalogFlavor { raw_name: "vanilla".into(), add_on_kind: None }
}

fn hit(id: &str) -> CatalogHit {
    CatalogHit {
        project_id: id.into(),
        slug: id.into(),
        title: id.to_uppercase(),
        description: "d".into(),
        author: "a".into(),
        downloads: 7,
        icon_url: None,
        is_client_only: false,
    }
}

#[test]
fn catalog_search_targets_and_answers() {
    let none = catalog_target(None, None, None).unwrap_err();
    assert_eq!(none.note.as_deref(), Some("No active server."));
    assert!(!none.supports_addons);
    let no_addons = catalog_target(None, None, Some((vanilla(), Some("1.21".into())))).unwrap_err();
    assert_eq!(no_addons.note.as_deref(), Some("This server flavor has no add-ons."));
    assert_eq!(no_addons.game_version.as_deref(), Some("1.21"));
    let requested = catalog_target(Some(paper()), Some("1.20.4".into()), Some((vanilla(), None))).unwrap();
    assert_eq!(
        requested,
        CatalogTarget { flavor: paper(), minecraft_version: Some("1.20.4".into()), kind: AddOnKind::Plugin }
    );

    let found = catalog_search_response(requested.clone(), Ok(vec![hit("luckperms"), hit("essentials")]));
    assert!(found.supports_addons);
    assert_eq!(found.addon_kind.as_deref(), Some("plugin"));
    assert_eq!(found.loader_name.as_deref(), Some("paper"));
    assert_eq!(found.results.len(), 2);
    assert_eq!(found.results[1].hit, hit("essentials"));
    assert_eq!(found.results[0].project_type, "plugin");
    assert_eq!(found.note, None);
    let failed = catalog_search_response(requested, Err("Modrinth timed out".into()));
    assert!(failed.results.is_empty());
    assert_eq!(failed.note.as_deref(), Some("Modrinth timed out"));
}

#[test]
fn addon_listing_answers() {
    let none = addons_unavailable(None).unwrap();
    assert_eq!(none.note.as_deref(), Some("No active server."));
    assert_eq!(none.pack_managed, None);
    let server = AddonServer { pack_managed: true, pack_name: Some("Pack".into()), has_add_on_folder: false };
    let flat = addons_unavailable(Some(&server)).unwrap();
    assert_eq!(flat.note.as_deref(), Some("This server flavor has no add-ons."));
    assert_eq!((flat.pack_managed, flat.pack_name.as_deref()), (Some(true), Some("Pack")));
    let server = AddonServer { has_add_on_folder: true, ..server };
    assert!(addons_unavailable(Some(&server)).is_none());
    let listed = addons_response(
        server,
        vec![AddonPlanEntry {
            jar_stem: "sodium-1.0".into(),
            display_name: "Sodium".into(),
            is_enabled: true,
            project_id: Some("AANobbMI".into()),
            current_version: Some("1.0".into()),
            available_version_label: Some("1.1".into()),
            bucket: AddonUpdateBucket::UpdateAvailable,
        }],
    );
    assert_eq!(listed.addons.len(), 1);
    assert_eq!(listed.addons[0].bucket, "updateAvailable");
    assert_eq!(listed.addons[0].available_version.as_deref(), Some("1.1"));
    assert!(listed.server_supports_addons);
    assert_eq!(listed.note, None);
}

#[test]
fn component_rows_list_the_server_and_its_helpers() {
    let mut server = ComponentServer {
        is_java: true,
        flavor_name: "paper".into(),
        minecraft_version: Some("1.21.1".into()),
        server_build: Some("#52".into()),
        geyser: HelperInstall {
            installed: true,
            metadata: Some(PluginMetadata { version: "2.4.0".into(), build: Some(650) }),
        },
        floodgate: HelperInstall { installed: true, metadata: None },
    };
    let rows = component_rows(&server);
    assert_eq!(rows.len(), 3);
    assert_eq!(rows[0].name, "paper");
    assert_eq!(rows[0].installed_label.as_deref(), Some("1.21.1 · #52"));
    assert!(rows[0].is_up_to_date);
    assert_eq!(rows[1].name, "Geyser");
    assert_eq!(rows[1].installed_label.as_deref(), Some("650"));
    assert_eq!(rows[1].installed_build, Some(650));
    assert_eq!(rows[1].note.as_deref(), Some("update_information_unavailable"));
    assert_eq!(rows[2].installed_label.as_deref(), Some("installed"));
    assert_eq!(rows[2].updatable, Some(false));
    server.geyser.installed = false;
    server.server_build = None;
    let rows = component_rows(&server);
    assert_eq!(rows.len(), 2);
    assert_eq!(rows[0].installed_label.as_deref(), Some("1.21.1"));
    assert_eq!(rows[1].name, "Floodgate");
    server.is_java = false;
    assert!(component_rows(&server).is_empty());
}

#[test]
fn modpack_inspection_answers() {
    let inspection = ModpackInspection {
        format: InspectedFormat::CurseForge { name: "All the Mods".into(), version_id: "9".into(), file_count: 412 },
        pinned_version: Some(PinnedVersion {
            mc_version: "1.20.1".into(),
            build_label: Some("forge 47.2.0".into()),
            loader_version: Some("47.2.0".into()),
        }),
        manual_downloads: vec![ManualDownload { file_name: "optifine.jar".into(), mod_name: "OptiFine".into() }],
    };
    let r = modpack_inspection_response(&inspection);
    assert!(r.success);
    assert_eq!(r.message, "Modpack inspected.");
    assert_eq!(r.format, "curseforge");
    assert_eq!(r.pack_name.as_deref(), Some("All the Mods"));
    assert_eq!(r.file_count, 412);
    assert_eq!(r.loader_name.as_deref(), Some("forge"));
    assert_eq!(r.minecraft_version.as_deref(), Some("1.20.1"));
    assert_eq!(r.manual_files[0].file_id, "optifine.jar");
    assert_eq!(r.manual_files[0].project_name, "OptiFine");
    assert_eq!(r.warnings, vec!["1 file(s) require manual completion before import can finish."]);
    let plain = ModpackInspection {
        format: InspectedFormat::PlainJarZip { jar_count: 3 },
        pinned_version: None,
        manual_downloads: vec![],
    };
    let r = modpack_inspection_response(&plain);
    assert_eq!((r.format.as_str(), r.pack_name, r.file_count), ("plain-jar-zip", None, 3));
    assert!(r.warnings.is_empty());
    assert_eq!(r.loader_name, None);
}
