use sitegen::pages::generate_about_page;
use sitegen::pages::generate_home_page;
use sitegen::pages::header;
use sitegen::plan::build_plan;
use sitegen::plan::Step;

const HOME_EXPECTED: &str = "<!DOCTYPE html><html><head><title>Home</title><script src=\"/main.js\"></script><link rel=\"stylesheet\" href=\"/main.css\"></link></head><body><nav><ul><li><a href=\"/\">Home</a></li><li><a href=\"pages/about.html\">About</a></li></ul></nav><div class=\"soldo-class\"><p>Ojla</p></div><h1>Home</h1><p>Welcome to the Home page!</p><p id=\"counter\">0</p><button onclick=\"incrementCounter()\">Increment</button></body></html>";

const ABOUT_EXPECTED: &str = "<!DOCTYPE html><html><head><title>About</title><link rel=\"stylesheet\" href=\"/main.css\"></link></head><body><nav><ul><li><a href=\"/\">Home</a></li><li><a href=\"pages/about.html\">About</a></li></ul></nav><div class=\"soldo-class\"><p>Ojla</p></div><h1>About</h1><p>This is the About page.</p></body></html>";

#[test]
fn home_page_exact() {
    assert_eq!(generate_home_page(), HOME_EXPECTED);
}

#[test]
fn about_page_exact() {
    assert_eq!(generate_about_page(), ABOUT_EXPECTED);
}

#[test]
fn documents_well_formed() {
    for page in [generate_home_page(), generate_about_page()] {
        assert!(page.starts_with("<!DOCTYPE html>"));
        assert_eq!(page.matches("<html>").count(), 1);
        assert_eq!(page.matches("</html>").count(), 1);
        assert!(page.ends_with("</html>"));
    }
}

#[test]
fn regeneration_identical() {
    assert_eq!(generate_home_page(), generate_home_page());
    assert_eq!(generate_about_page(), generate_about_page());
}

#[test]
fn home_counter_initialized() {
    let home = generate_home_page();
    assert!(home.contains("<p id=\"counter\">0</p>"));
}

#[test]
fn asset_references() {
    let home = generate_home_page();
    let about = generate_about_page();
    assert!(home.contains("<script src=\"/main.js\"></script>"));
    assert!(home.contains("<link rel=\"stylesheet\" href=\"/main.css\">"));
    assert!(about.contains("<link rel=\"stylesheet\" href=\"/main.css\">"));
    assert!(!about.contains("/main.js"));
    assert!(!about.contains("<script"));
}

#[test]
fn header_shared() {
    let fragment = header();
    let home = generate_home_page();
    let about = generate_about_page();
    assert!(home.contains(&fragment));
    assert!(about.contains(&fragment));
    assert!(fragment.contains("<a href=\"/\">Home</a>"));
    assert!(fragment.contains("<a href=\"pages/about.html\">About</a>"));
}

#[test]
fn plan_prepares_directories_before_writing() {
    let plan = build_plan();
    assert_eq!(plan.len(), 4);
    match &plan[0] {
        Step::EnsureDir { dir } => assert_eq!(dir, "dist"),
        _ => panic!("first step must prepare the output directory"),
    }
    match &plan[1] {
        Step::WriteFile { path, contents } => {
            assert_eq!(path, "dist/index.html");
            assert_eq!(contents, HOME_EXPECTED);
        }
        _ => panic!("second step must write the Home page"),
    }
    match &plan[2] {
        Step::EnsureDir { dir } => assert_eq!(dir, "dist/pages"),
        _ => panic!("third step must prepare the pages directory"),
    }
    match &plan[3] {
        Step::WriteFile { path, contents } => {
            assert_eq!(path, "dist/pages/about.html");
            assert_eq!(contents, ABOUT_EXPECTED);
        }
        _ => panic!("fourth step must write the About page"),
    }
}
