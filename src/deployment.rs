//! Settings of the deployment stack: the source repository whose CI is
//! trusted to deploy the service.
use vstd::prelude::*;

verus! {

/// The repository that deploys the service: its organisation and name.
#[derive(Debug, Clone)]
pub struct WishappStackProps {
    pub github_org: String,
    pub github_repo: String,
}

impl WishappStackProps {
    /// Settings for the repository `github_org/github_repo`.
    pub fn new(github_org: &str, github_repo: &str) -> (r: WishappStackProps)
        ensures
            r.github_org@ == github_org@,
            r.github_repo@ == github_repo@,
    {
        WishappStackProps { github_org: github_org.to_string(), github_repo: github_repo.to_string() }
    }
}

/// The regions the service is deployed to.
pub open spec fn supported_regions() -> Seq<Seq<char>> {
    seq!["us-east-1"@, "us-east-2"@, "us-west-1"@, "us-west-2"@, "eu-west-1"@, "eu-central-1"@]
}

/// The supported regions, comma separated.
pub open spec fn region_list() -> Seq<char> {
    "us-east-1, us-east-2, us-west-1, us-west-2, eu-west-1, eu-central-1"@
}

/// A character allowed in an organisation or repository name: an ASCII
/// letter or digit, or a hyphen.
pub open spec fn name_char(c: char) -> bool {
    ('a' <= c && c <= 'z') || ('A' <= c && c <= 'Z') || ('0' <= c && c <= '9') || c == '-'
}

/// A valid organisation or repository name.
pub open spec fn valid_name(s: Seq<char>) -> bool {
    forall|i: int| 0 <= i < s.len() ==> name_char(#[trigger] s[i])
}

/// What the region setting gives: the region where it is supported,
/// otherwise a message.
pub open spec fn region_check(region: Option<Seq<char>>) -> Result<Seq<char>, Seq<char>> {
    match region {
        None => Err("AWS_REGION or AWS_DEFAULT_REGION environment variable is required"@),
        Some(r) => if supported_regions().contains(r) {
            Ok(r)
        } else {
            Err("Unsupported AWS region: "@ + r + ". Supported regions are: "@ + region_list())
        },
    }
}

/// What the deployment settings give: organisation, repository and region,
/// or the message of the first setting that is absent or invalid.
pub open spec fn config_check(
    github_org: Option<Seq<char>>,
    github_repo: Option<Seq<char>>,
    region: Option<Seq<char>>,
) -> Result<(Seq<char>, Seq<char>, Seq<char>), Seq<char>> {
    if github_org is None {
        Err("GITHUB_ORG environment variable is required"@)
    } else if github_repo is None {
        Err("GITHUB_REPO environment variable is required"@)
    } else if !valid_name(github_org.unwrap()) {
        Err("GITHUB_ORG must contain only alphanumeric characters and hyphens"@)
    } else if !valid_name(github_repo.unwrap()) {
        Err("GITHUB_REPO must contain only alphanumeric characters and hyphens"@)
    } else {
        match region_check(region) {
            Ok(r) => Ok((github_org.unwrap(), github_repo.unwrap(), r)),
            Err(m) => Err(m),
        }
    }
}

pub open spec fn opt_text(o: Option<String>) -> Option<Seq<char>> {
    match o {
        Some(s) => Some(s@),
        None => None,
    }
}

/// Whether every character of a name is allowed.
pub fn is_valid_name(s: &str) -> (r: bool)
    ensures
        r == valid_name(s@),
{
    let n = s.unicode_len();
    let mut i: usize = 0;
    while i < n
        invariant
            i <= n,
            n == s@.len(),
            forall|j: int| 0 <= j < i ==> name_char(#[trigger] s@[j]),
        decreases n - i,
    {
        let c = s.get_char(i);
        if !(('a' <= c && c <= 'z') || ('A' <= c && c <= 'Z') || ('0' <= c && c <= '9') || c == '-') {
            return false;
        }
        i = i + 1;
    }
    true
}

/// Checks the region setting against the supported regions.
pub fn validate_region(region: Option<String>) -> (r: Result<String, String>)
    ensures
        match r {
            Ok(s) => region_check(opt_text(region)) == Ok::<Seq<char>, Seq<char>>(s@),
            Err(m) => region_check(opt_text(region)) == Err::<Seq<char>, Seq<char>>(m@),
        },
{
    let name = match region {
        Some(s) => s,
        None => return Err("AWS_REGION or AWS_DEFAULT_REGION environment variable is required".to_string()),
    };
    let known = vec![
        "us-east-1".to_string(),
        "us-east-2".to_string(),
        "us-west-1".to_string(),
        "us-west-2".to_string(),
        "eu-west-1".to_string(),
        "eu-central-1".to_string(),
    ];
    assert(known@.map_values(|s: String| s@) =~= supported_regions());
    let mut i: usize = 0;
    while i < known.len()
        invariant
            i <= known@.len(),
            known@.map_values(|s: String| s@) == supported_regions(),
            opt_text(region) == Some(name@),
            forall|j: int| 0 <= j < i ==> known@[j]@ != name@,
        decreases known.len() - i,
    {
        if known[i] == name {
            assert(supported_regions()[i as int] == name@);
            assert(supported_regions().contains(name@));
            return Ok(name);
        }
        i = i + 1;
    }
    assert(!supported_regions().contains(name@)) by {
        if supported_regions().contains(name@) {
            let j = choose|j: int| 0 <= j < supported_regions().len() && supported_regions()[j] == name@;
            assert(known@[j]@ == name@);
        }
    }
    let mut m = "Unsupported AWS region: ".to_string();
    m.append(name.as_str());
    m.append(". Supported regions are: ");
    m.append("us-east-1, us-east-2, us-west-1, us-west-2, eu-west-1, eu-central-1");
    Err(m)
}

/// Checks the deployment settings: organisation and repository names must
/// be given and valid, and the region supported.
pub fn get_config(
    github_org: Option<String>,
    github_repo: Option<String>,
    region: Option<String>,
) -> (r: Result<(String, String, String), String>)
    ensures
        match r {
            Ok((o, p, g)) => config_check(opt_text(github_org), opt_text(github_repo), opt_text(region))
                == Ok::<(Seq<char>, Seq<char>, Seq<char>), Seq<char>>((o@, p@, g@)),
            Err(m) => config_check(opt_text(github_org), opt_text(github_repo), opt_text(region))
                == Err::<(Seq<char>, Seq<char>, Seq<char>), Seq<char>>(m@),
        },
{
    let org = match github_org {
        Some(s) => s,
        None => return Err("GITHUB_ORG environment variable is required".to_string()),
    };
    let repo = match github_repo {
        Some(s) => s,
        None => return Err("GITHUB_REPO environment variable is required".to_string()),
    };
    if !is_valid_name(org.as_str()) {
        return Err("GITHUB_ORG must contain only alphanumeric characters and hyphens".to_string());
    }
    if !is_valid_name(repo.as_str()) {
        return Err("GITHUB_REPO must contain only alphanumeric characters and hyphens".to_string());
    }
    match validate_region(region) {
        Ok(g) => Ok((org, repo, g)),
        Err(m) => Err(m),
    }
}

} // verus!
