use vstd::prelude::*;
use vstd::string::*;

verus! {

/// Where the standalone-interpreter builds publish their latest release.
pub const LATEST_RELEASE_URL: &'static str = "https://raw.githubusercontent.com/indygreg/python-build-standalone/latest-release/latest-release.json";

/// The description of the latest release of the standalone-interpreter builds.
#[derive(Clone, Debug)]
pub struct DownloadUrlResponse {
    pub version: u32,
    pub tag: String,
    pub release_url: String,
    pub asset_url_prefix: String,
}

/// `cpython-<version>+<tag>-<target>-install_only_stripped.tar.gz`
pub open spec fn archive_name_spec(python_version: Seq<char>, tag: Seq<char>, target_triple: Seq<char>) -> Seq<char> {
    "cpython-"@ + python_version + "+"@ + tag + "-"@ + target_triple + "-install_only_stripped.tar.gz"@
}

impl DownloadUrlResponse {
    /// The name of the stripped install-only archive of this release for an
    /// interpreter version and a target triple.
    pub fn archive_name(&self, python_version: &str, target_triple: &str) -> (r: String)
        ensures
            r@ == archive_name_spec(python_version@, self.tag@, target_triple@),
    {
        let mut name = String::from_str("cpython-");
        name.append(python_version);
        name.append("+");
        name.append(self.tag.as_str());
        name.append("-");
        name.append(target_triple);
        name.append("-install_only_stripped.tar.gz");
        name
    }

    /// Where the asset `file_name` of this release is downloaded from.
    pub fn asset_url(&self, file_name: &str) -> (r: String)
        ensures
            r@ == self.asset_url_prefix@ + "/"@ + file_name@,
    {
        let mut url = self.asset_url_prefix.clone();
        url.append("/");
        url.append(file_name);
        url
    }
}

} // verus!
