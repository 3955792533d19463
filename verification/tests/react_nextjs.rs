use flick_scan::pipeline::lint_source_with_project;
use flick_scan::project::ProjectInfo;

fn rule_messages(path: &str, rule_name: &str, source: &str) -> Vec<String> {
    lint_source_with_project(path, source, &ProjectInfo::test_all())
        .diagnostics
        .into_iter()
        .filter(|diagnostic| diagnostic.rule_name == rule_name)
        .map(|diagnostic| diagnostic.message)
        .collect()
}

#[test]
fn flags_img_element() {
    let messages = rule_messages(
        "app/page.tsx",
        "nextjs/no-img-element",
        "export default function Page() { return <img src=\"/logo.png\" />; }\n",
    );
    assert_eq!(
        messages,
        vec!["Prefer `next/image` over raw `<img>` elements in Next.js apps"]
    );
}

#[test]
fn flags_internal_anchor() {
    let messages = rule_messages(
        "app/page.tsx",
        "nextjs/prefer-next-link",
        "export default function Page() { return <a href=\"/dashboard\">Dashboard</a>; }\n",
    );
    assert_eq!(
        messages,
        vec!["Use `next/link` for internal navigation instead of raw anchors"]
    );
}

#[test]
fn flags_head_element() {
    let messages = rule_messages(
        "app/page.tsx",
        "nextjs/no-head-element",
        "export default function Page() { return <head><title>Demo</title></head>; }\n",
    );
    assert_eq!(
        messages,
        vec!["Avoid raw `<head>` elements in Next.js components"]
    );
}

#[test]
fn flags_head_import() {
    let messages = rule_messages(
        "app/page.tsx",
        "nextjs/no-head-import",
        "import Head from 'next/head';\n",
    );
    assert_eq!(
        messages,
        vec!["Avoid `next/head` in modern Next.js app-router code"]
    );
}

#[test]
fn flags_document_import() {
    let messages = rule_messages(
        "app/page.tsx",
        "nextjs/no-document-import",
        "import { Html } from 'next/document';\n",
    );
    assert_eq!(
        messages,
        vec!["Only custom `_document` files should import `next/document`"]
    );
}

#[test]
fn flags_script_in_head() {
    let messages = rule_messages(
        "app/page.tsx",
        "nextjs/no-script-in-head",
        "export default function Page() { return <head><script src=\"/a.js\" /></head>; }\n",
    );
    assert_eq!(
        messages,
        vec!["Avoid placing `<script>` tags directly inside `<head>` in Next.js"]
    );
}

#[test]
fn flags_missing_metadata() {
    let messages = rule_messages(
        "app/page.tsx",
        "nextjs/missing-metadata",
        "export default function Page() { return <div />; }\n",
    );
    assert_eq!(
        messages,
        vec!["App-router pages and layouts should export `metadata` or `generateMetadata`"]
    );
}

#[test]
fn flags_get_handler_side_effects() {
    let messages = rule_messages(
        "app/api/users/route.ts",
        "nextjs/no-side-effect-in-get-handler",
        "export async function GET() { await prisma.user.create({ data: {} }); return Response.json({ ok: true }); }\n",
    );
    assert_eq!(
        messages,
        vec!["GET route handlers should avoid mutations and other server side effects"]
    );
}

#[test]
fn flags_async_client_component() {
    let messages = rule_messages(
        "app/page.tsx",
        "nextjs/no-async-client-component",
        "\"use client\";\nexport default async function Page() { return <div />; }\n",
    );
    assert_eq!(
        messages,
        vec!["Client components should not be async functions"]
    );
}

#[test]
fn metadata_export_and_other_files_are_not_flagged() {
    assert!(rule_messages(
        "app/page.tsx",
        "nextjs/missing-metadata",
        "export const metadata = { title: 'x' };\nexport default function Page() { return <div />; }\n",
    )
    .is_empty());
    assert!(rule_messages(
        "app/components/card.tsx",
        "nextjs/missing-metadata",
        "export default function Card() { return <div />; }\n",
    )
    .is_empty());
    assert!(rule_messages(
        "pages/_document.tsx",
        "nextjs/no-document-import",
        "import { Html } from 'next/document';\n",
    )
    .is_empty());
}

#[test]
fn external_and_targeted_anchors_are_not_flagged() {
    for source in [
        "export default function Page() { return <a href=\"https://x.dev\">x</a>; }\n",
        "export default function Page() { return <a href=\"//cdn.dev/a\">x</a>; }\n",
        "export default function Page() { return <a href=\"/docs\" target=\"_blank\">x</a>; }\n",
        "export default function Page() { return <a href=\"/\">home</a>; }\n",
    ] {
        assert!(rule_messages("app/page.tsx", "nextjs/prefer-next-link", source).is_empty());
    }
}

#[test]
fn flags_search_params_without_suspense() {
    let messages = rule_messages(
        "app/page.tsx",
        "nextjs/no-search-params-without-suspense",
        "import { useSearchParams } from 'next/navigation';\nexport default function Page() { const params = useSearchParams(); return <div>{params.get('q')}</div>; }\n",
    );
    assert_eq!(
        messages,
        vec!["Wrap `useSearchParams()` consumers in `<Suspense>`"]
    );
}

#[test]
fn unrelated_suspense_does_not_suppress_warning() {
    let messages = rule_messages(
        "app/page.tsx",
        "nextjs/no-search-params-without-suspense",
        "import { Suspense } from 'react';\nimport { useSearchParams } from 'next/navigation';\nfunction SearchResults() { const params = useSearchParams(); return <div>{params.get('q')}</div>; }\nfunction Other() { return <div />; }\nexport default function Page() { return <><Suspense><Other /></Suspense><SearchResults /></>; }\n",
    );
    assert_eq!(
        messages,
        vec!["Wrap `useSearchParams()` consumers in `<Suspense>`"]
    );
}

#[test]
fn wrapped_search_params_consumer_is_allowed() {
    let messages = rule_messages(
        "app/page.tsx",
        "nextjs/no-search-params-without-suspense",
        "import { Suspense } from 'react';\nimport { useSearchParams } from 'next/navigation';\nfunction useQuery() { return useSearchParams().get('q'); }\nfunction SearchResults() { const q = useQuery(); return <div>{q}</div>; }\nexport default function Page() { return <Suspense><SearchResults /></Suspense>; }\n",
    );
    assert!(messages.is_empty());
}

#[test]
fn search_params_read_through_local_hook_is_flagged_at_the_call() {
    let diagnostics: Vec<(String, u32)> = lint_source_with_project(
        "app/page.tsx",
        "import { useSearchParams } from 'next/navigation';\nconst useQuery = () => useSearchParams().get('q');\nexport default function Page() { const q = useQuery(); return <div>{q}</div>; }\n",
        &ProjectInfo::test_all(),
    )
    .diagnostics
    .into_iter()
    .filter(|d| d.rule_name == "nextjs/no-search-params-without-suspense")
    .map(|d| (d.span, d.byte_start))
    .collect();
    assert_eq!(diagnostics.len(), 1);
    assert_eq!(diagnostics[0].0, "3:44");
}

#[test]
fn search_params_rule_is_silent_outside_nextjs() {
    let diagnostics = lint_source_with_project(
        "app/page.tsx",
        "import { useSearchParams } from 'next/navigation';\nexport default function Page() { useSearchParams(); return null; }\n",
        &ProjectInfo::test_react(),
    )
    .diagnostics
    .into_iter()
    .filter(|d| d.rule_name == "nextjs/no-search-params-without-suspense")
    .count();
    assert_eq!(diagnostics, 0);
}
