use banna::angular_app::{max_route_order, patch_app_routes, patch_route_provider, RoutePatch};

const ROUTES: &str = "export const APP_ROUTES: Routes = [\n  { path: '', component: HomeComponent },\n];\n";

#[test]
fn adds_a_lazy_route_once() {
    let RoutePatch::Patched(text) = patch_app_routes(ROUTES, "books", "book", "book") else {
        panic!("route should be added");
    };
    assert!(text.contains(
        "  { path: 'books', loadChildren: () => import('./book/book.routes').then(m => m.bookRoutes) },\n];"
    ));
    assert!(matches!(patch_app_routes(&text, "books", "book", "book"), RoutePatch::Present));
    assert!(matches!(patch_app_routes("const routes = [];", "books", "book", "book"), RoutePatch::NotFound));
}

const PROVIDER: &str = "function configureRoutes(routes: RoutesService) {\n  return () => {\n    routes.add([\n      {\n        path: '/',\n        name: '::Menu:Home',\n        order: 1,\n      },\n      {\n        path: '/authors',\n        order:  12 ,\n      },\n    ]);\n  };\n}\n";

#[test]
fn finds_the_largest_menu_order() {
    assert_eq!(max_route_order(PROVIDER), 12);
    assert_eq!(max_route_order("no orders here"), 0);
    assert_eq!(max_route_order("order: 99999999999\norder: 7x"), 7);
    assert_eq!(max_route_order("order: -5"), 0);
}

#[test]
fn appends_a_menu_route_after_the_largest_order() {
    let RoutePatch::Patched(text) = patch_route_provider(PROVIDER, "books", "Books", "BookStore") else {
        panic!("menu route should be added");
    };
    assert!(text.contains(
        "      {\n        path: '/books',\n        name: '::Menu:Books',\n        iconClass: 'fa fa-file-alt',\n        order: 13,\n        layout: eLayoutType.application,\n        requiredPolicy: 'BookStore.Books',\n      },\n]);"
    ));
    assert!(matches!(patch_route_provider(&text, "books", "Books", "BookStore"), RoutePatch::Present));
}

#[test]
fn registers_theme_changer_in_legacy_ng_module_idempotently() {
    let source = "@NgModule({\n  imports: [],\n  providers: [],\n})\nexport class AppModule {}\n";
    let first = banna::angular_app::legacy_theme_changer_text(source, "app.module.ts").expect("first registration");
    let module = banna::angular_app::legacy_theme_changer_text(&first, "app.module.ts").expect("second registration");
    assert_eq!(module.matches("THEME_CHANGER_PROVIDER,").count(), 1);
    assert_eq!(module.matches("import { THEME_CHANGER_PROVIDER }").count(), 1);
}

#[test]
fn adds_a_providers_array_to_module_metadata_without_one() {
    let source = "@NgModule({\n  imports: [],\n})\nexport class AppModule {}\n";
    let module = banna::angular_app::legacy_theme_changer_text(source, "app.module.ts").unwrap();
    assert!(module.contains("@NgModule({\n  providers: [THEME_CHANGER_PROVIDER],\n  imports: [],"));
    assert_eq!(
        banna::angular_app::legacy_theme_changer_text("export class AppModule {}\n", "app.module.ts").unwrap_err(),
        "Angular NgModule metadata not found in app.module.ts; theme changer was not registered"
    );
}

#[test]
fn registers_theme_changer_in_standalone_configuration() {
    let source = "export const appConfig = {\n  providers: [\n    provideRouter(routes),\n  ],\n};\n";
    let config = banna::angular_app::standalone_theme_changer_text(source, "app.config.ts").unwrap();
    assert!(config.starts_with("import { provideThemeChanger } from './theme-changer/theme-changer.provider';\n"));
    assert!(config.contains("    provideRouter(routes),\n  \n    provideThemeChanger(),]"));
    assert_eq!(banna::angular_app::standalone_theme_changer_text(&config, "app.config.ts").unwrap(), config);
    assert_eq!(
        banna::angular_app::standalone_theme_changer_text("const a = 1;\n", "app.config.ts").unwrap_err(),
        "Angular providers array not found in app.config.ts; theme changer was not registered"
    );
}
