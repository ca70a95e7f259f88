use rustpod::registry::{
    auth_url, bearer, blob_url, full_image_name, login_message, logout_message, manifest_accept,
    manifest_url, parse_image_ref, select_platform_digest, ManifestReference, Platform,
};

#[test]
fn test_auth_url_format() {
    let image = "library/alpine";
    let auth_url = auth_url(image);
    assert_eq!(
        auth_url,
        "https://auth.docker.io/token?service=registry.docker.io&scope=repository:library/alpine:pull"
    );
}

#[test]
fn official_images_get_the_library_namespace() {
    assert_eq!(full_image_name("hello-world"), "library/hello-world");
    assert_eq!(full_image_name("alpine"), "library/alpine");
}

#[test]
fn namespaced_images_keep_their_name() {
    assert_eq!(full_image_name("bitnami/redis"), "bitnami/redis");
    assert_eq!(full_image_name("library/alpine"), "library/alpine");
    assert_eq!(full_image_name(&full_image_name("busybox")), "library/busybox");
}

#[test]
fn registry_urls_and_headers() {
    assert_eq!(
        manifest_url("library/alpine", "latest"),
        "https://registry-1.docker.io/v2/library/alpine/manifests/latest"
    );
    assert_eq!(
        blob_url("library/alpine", "sha256:abc"),
        "https://registry-1.docker.io/v2/library/alpine/blobs/sha256:abc"
    );
    assert_eq!(bearer("tok"), "Bearer tok");
    assert_eq!(
        manifest_accept(),
        "application/vnd.docker.distribution.manifest.v2+json, application/vnd.docker.distribution.manifest.list.v2+json, application/vnd.oci.image.manifest.v1+json, application/vnd.oci.image.index.v1+json"
    );
}

fn entry(digest: &str, arch: Option<&str>, os: Option<&str>, with_platform: bool) -> ManifestReference {
    ManifestReference {
        digest: digest.to_string(),
        platform: if with_platform {
            Some(Platform {
                architecture: arch.map(|a| a.to_string()),
                os: os.map(|o| o.to_string()),
            })
        } else {
            None
        },
    }
}

#[test]
fn manifest_list_prefers_linux_amd64() {
    let list = vec![
        entry("sha256:arm", Some("arm64"), Some("linux"), true),
        entry("sha256:win", Some("amd64"), Some("windows"), true),
        entry("sha256:amd", Some("amd64"), Some("linux"), true),
        entry("sha256:amd2", Some("amd64"), Some("linux"), true),
    ];
    assert_eq!(select_platform_digest(&list), Ok("sha256:amd".to_string()));
}

#[test]
fn manifest_list_falls_back_to_first_entry() {
    let list = vec![
        entry("sha256:first", Some("arm64"), Some("linux"), true),
        entry("sha256:noplatform", None, None, false),
        entry("sha256:noarch", None, Some("linux"), true),
    ];
    assert_eq!(select_platform_digest(&list), Ok("sha256:first".to_string()));
}

#[test]
fn empty_manifest_list_is_an_error() {
    assert_eq!(select_platform_digest(&vec![]), Err("Empty manifest list".to_string()));
}

#[test]
fn image_references_split_at_colons() {
    assert_eq!(parse_image_ref("alpine"), ("alpine".to_string(), "latest".to_string()));
    assert_eq!(parse_image_ref("alpine:3.19"), ("alpine".to_string(), "3.19".to_string()));
    assert_eq!(parse_image_ref("alpine:"), ("alpine".to_string(), "".to_string()));
    assert_eq!(parse_image_ref("a:b:c"), ("a".to_string(), "b".to_string()));
    assert_eq!(parse_image_ref(""), ("".to_string(), "latest".to_string()));
}

#[test]
fn login_and_logout_default_to_docker_hub() {
    assert_eq!(login_message(None), "Login Succeeded for docker.io");
    assert_eq!(login_message(Some("quay.io".to_string())), "Login Succeeded for quay.io");
    assert_eq!(logout_message(None), "Removing login credentials for docker.io");
    assert_eq!(logout_message(Some("ghcr.io".to_string())), "Removing login credentials for ghcr.io");
}
