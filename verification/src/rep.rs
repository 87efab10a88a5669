//! Typed representations of the engine's JSON responses. The program around
//! the library deserializes the wire JSON and hands these plain values over.
//! Map-valued fields are carried as key/value pair lists, timestamps as the
//! numbers or strings the wire carries.

use vstd::prelude::*;

use crate::text::chars_vec;

verus! {

#[derive(Clone, Debug, PartialEq)]
pub struct SearchResult {
    pub description: String,
    pub is_official: bool,
    pub is_automated: bool,
    pub name: String,
    pub star_count: u64,
}

#[derive(Clone, Debug, PartialEq)]
pub struct Image {
    pub created: u64,
    pub id: String,
    pub parent_id: String,
    pub labels: Option<Vec<(String, String)>>,
    pub repo_tags: Option<Vec<String>>,
    pub repo_digests: Option<Vec<String>>,
    pub virtual_size: u64,
}

#[derive(Clone, Debug, PartialEq)]
pub struct ImageDetails {
    pub id: String,
    pub repo_tags: Option<Vec<String>>,
    pub repo_digests: Option<Vec<String>>,
    pub parent: String,
    pub comment: String,
    pub created: String,
    pub container: String,
    pub container_config: Option<ContainerConfig>,
    pub docker_version: String,
    pub author: String,
    pub config: Option<ContainerConfig>,
    pub architecture: String,
    pub os: String,
    pub os_version: Option<String>,
    pub size: i64,
    pub virtual_size: i64,
    pub graph_driver: GraphDriverData,
    pub root_fs: RootFS,
    pub metadata: Metadata,
}

#[derive(Clone, Debug, PartialEq)]
pub struct Container {
    pub created: u64,
    pub command: String,
    pub id: String,
    pub image: String,
    pub image_id: String,
    pub labels: Vec<(String, String)>,
    pub names: Vec<String>,
    pub ports: Vec<Port>,
    pub state: String,
    pub status: String,
    pub size_rw: Option<u64>,
    pub size_root_fs: Option<u64>,
}

#[derive(Clone, Debug, PartialEq)]
pub struct ContainerDetails {
    pub app_armor_profile: String,
    pub args: Vec<String>,
    pub config: ContainerConfig,
    pub created: String,
    pub driver: String,
    pub host_config: HostConfig,
    pub hostname_path: String,
    pub hosts_path: String,
    pub log_path: String,
    pub id: String,
    pub image: String,
    pub mount_label: String,
    pub name: String,
    pub network_settings: NetworkSettings,
    pub path: String,
    pub process_label: String,
    pub resolv_conf_path: String,
    pub restart_count: u64,
    pub state: State,
    pub mounts: Vec<Mount>,
}

#[derive(Clone, Debug, PartialEq)]
pub struct Mount {
    pub source: String,
    pub destination: String,
    pub mode: String,
    pub rw: bool,
}

#[derive(Clone, Debug, PartialEq)]
pub struct State {
    pub error: String,
    pub exit_code: u64,
    pub finished_at: String,
    pub oom_killed: bool,
    pub paused: bool,
    pub pid: u64,
    pub restarting: bool,
    pub running: bool,
    pub started_at: String,
    pub status: String,
}

#[derive(Clone, Debug, PartialEq)]
pub struct NetworkSettings {
    pub bridge: String,
    pub gateway: String,
    pub ip_address: String,
    pub ip_prefix_len: u64,
    pub mac_address: String,
    pub ports: Option<Vec<(String, Option<Vec<Vec<(String, String)>>>)>>,
    pub networks: Vec<(String, NetworkEntry)>,
}

#[derive(Clone, Debug, PartialEq)]
pub struct NetworkEntry {
    pub network_id: String,
    pub endpoint_id: String,
    pub gateway: String,
    pub ip_address: String,
    pub ip_prefix_len: u64,
    pub ipv6_gateway: String,
    pub global_ipv6_address: String,
    pub global_ipv6_prefix_len: u64,
    pub mac_address: String,
}

#[derive(Clone, Debug, PartialEq)]
pub struct HostConfig {
    pub cgroup_parent: Option<String>,
    pub container_id_file: String,
    pub cpu_shares: Option<u64>,
    pub cpuset_cpus: Option<String>,
    pub memory: Option<u64>,
    pub memory_swap: Option<i64>,
    pub network_mode: String,
    pub pid_mode: Option<String>,
    pub port_bindings: Option<Vec<(String, Vec<Vec<(String, String)>>)>>,
    pub privileged: bool,
    pub publish_all_ports: bool,
    pub readonly_rootfs: Option<bool>,
}

#[derive(Clone, Debug, PartialEq)]
pub struct ContainerConfig {
    pub hostname: String,
    pub domainname: String,
    pub user: String,
    pub attach_stdin: bool,
    pub attach_stdout: bool,
    pub attach_stderr: bool,
    pub exposed_ports: Option<Vec<(String, Vec<(String, String)>)>>,
    pub tty: bool,
    pub open_stdin: bool,
    pub stdin_once: bool,
    pub env: Option<Vec<String>>,
    pub cmd: Option<Vec<String>>,
    pub healtcheck: Option<HealthConfig>,
    pub args_escaped: Option<bool>,
    pub image: String,
    pub volumes: Option<Vec<(String, Vec<(String, String)>)>>,
    pub working_dir: String,
    pub entrypoint: Option<Vec<String>>,
    pub network_disabled: Option<bool>,
    pub mac_address: Option<String>,
    pub on_build: Option<Vec<String>>,
    pub labels: Option<Vec<(String, String)>>,
    pub stop_signal: Option<String>,
    pub stop_timeout: Option<u64>,
    pub shell: Option<Vec<String>>,
}

/// The characters of a variable declaration before its first equals sign.
pub open spec fn upto_eq(s: Seq<char>) -> Seq<char>
    decreases s.len(),
{
    if s.len() == 0 {
        seq![]
    } else if s[0] == '=' {
        seq![]
    } else {
        seq![s[0]] + upto_eq(s.drop_first())
    }
}

/// The characters of a variable declaration after its first equals sign.
pub open spec fn after_eq(s: Seq<char>) -> Seq<char>
    decreases s.len(),
{
    if s.len() == 0 {
        seq![]
    } else if s[0] == '=' {
        s.drop_first()
    } else {
        after_eq(s.drop_first())
    }
}

/// Whether a declaration holds an equals sign at all.
pub open spec fn has_eq(s: Seq<char>) -> bool {
    exists|i: int| 0 <= i < s.len() && s[i] == '='
}

proof fn lemma_eq_split(s: Seq<char>, j: int)
    requires
        0 <= j <= s.len(),
        forall|l: int| 0 <= l < j ==> s[l] != '=',
        j < s.len() ==> s[j] == '=',
    ensures
        upto_eq(s) == s.take(j),
        j < s.len() ==> after_eq(s) == s.skip(j + 1),
        j == s.len() ==> after_eq(s) == Seq::<char>::empty(),
    decreases j,
{
    if s.len() == 0 {
        assert(upto_eq(s) =~= s.take(j));
        assert(after_eq(s) =~= Seq::<char>::empty());
    } else if j == 0 {
        if s[0] == '=' {
            assert(upto_eq(s) =~= s.take(0));
            assert(after_eq(s) =~= s.skip(1));
        }
    } else {
        lemma_eq_split(s.drop_first(), j - 1);
        assert(seq![s[0]] + s.drop_first().take(j - 1) =~= s.take(j));
        if j < s.len() {
            assert(s.drop_first().skip(j - 1 + 1) =~= s.skip(j + 1));
        }
    }
}

impl ContainerConfig {
    /// The environment as variable/value pairs, in declaration order: each
    /// `NAME=VALUE` entry split at its equals signs, keeping the name and
    /// the piece between the first two.
    pub fn env(&self) -> (r: Vec<(String, String)>)
        requires
            self.env matches Some(vars) ==> forall|i: int|
                0 <= i < vars@.len() ==> has_eq(#[trigger] vars@[i]@),
        ensures
            match self.env {
                Some(vars) => r@.len() == vars@.len() && forall|i: int|
                    0 <= i < vars@.len() ==> (#[trigger] r@[i]).0@ == upto_eq(vars@[i]@)
                        && r@[i].1@ == upto_eq(after_eq(vars@[i]@)),
                None => r@.len() == 0,
            },
    {
        let mut map: Vec<(String, String)> = Vec::new();
        match &self.env {
            Some(vars) => {
                let mut i: usize = 0;
                while i < vars.len()
                    invariant
                        i <= vars@.len(),
                        map@.len() == i,
                        forall|i0: int|
                            0 <= i0 < vars@.len() ==> has_eq(#[trigger] vars@[i0]@),
                        forall|l: int|
                            0 <= l < i ==> (#[trigger] map@[l]).0@ == upto_eq(vars@[l]@)
                                && map@[l].1@ == upto_eq(after_eq(vars@[l]@)),
                    decreases vars@.len() - i,
                {
                    let cs = chars_vec(vars[i].as_str());
                    let name = split_first_eq(&cs);
                    let value = second_segment(&cs);
                    map.push((name, value));
                    i = i + 1;
                }
                map
            },
            None => map,
        }
    }
}

/// The text before the first equals sign, as a string.
fn split_first_eq(cs: &Vec<char>) -> (r: String)
    requires
        has_eq(cs@),
    ensures
        r@ == upto_eq(cs@),
{
    let ghost w = choose|i: int| 0 <= i < cs@.len() && cs@[i] == '=';
    let n = cs.len();
    let mut j: usize = 0;
    let mut out: Vec<char> = Vec::new();
    loop
        invariant
            cs@.len() == n,
            0 <= j <= w < cs@.len(),
            cs@[w] == '=',
            out@ == cs@.take(j as int),
            forall|l: int| 0 <= l < j ==> cs@[l] != '=',
        ensures
            j < cs@.len(),
            cs@[j as int] == '=',
            out@ == cs@.take(j as int),
            forall|l: int| 0 <= l < j ==> cs@[l] != '=',
        decreases cs@.len() - j,
    {
        let c = cs[j];
        if c == '=' {
            break ;
        }
        out.push(c);
        proof {
            assert(cs@.take(j + 1) =~= cs@.take(j as int).push(cs@[j as int]));
            assert(j as int != w);
        }
        j = j + 1;
    }
    proof {
        lemma_eq_split(cs@, j as int);
    }
    crate::text::string_from_chars(&out)
}

/// The text between the first equals sign and the one after it or the end,
/// as a string.
fn second_segment(cs: &Vec<char>) -> (r: String)
    requires
        has_eq(cs@),
    ensures
        r@ == upto_eq(after_eq(cs@)),
{
    let ghost w = choose|i: int| 0 <= i < cs@.len() && cs@[i] == '=';
    let n = cs.len();
    let mut j: usize = 0;
    loop
        invariant
            cs@.len() == n,
            0 <= j <= w < cs@.len(),
            cs@[w] == '=',
            forall|l: int| 0 <= l < j ==> cs@[l] != '=',
        ensures
            j < cs@.len(),
            cs@[j as int] == '=',
            forall|l: int| 0 <= l < j ==> cs@[l] != '=',
        decreases cs@.len() - j,
    {
        if cs[j] == '=' {
            break ;
        }
        proof {
            assert(j as int != w);
        }
        j = j + 1;
    }
    proof {
        lemma_eq_split(cs@, j as int);
    }
    let ghost rest = cs@.skip(j + 1);
    let mut out: Vec<char> = Vec::new();
    let mut k: usize = j + 1;
    loop
        invariant
            cs@.len() == n,
            j < cs@.len(),
            j + 1 <= k <= cs@.len(),
            rest == cs@.skip(j + 1),
            out@ == rest.take(k - j - 1),
            forall|l: int| j + 1 <= l < k ==> cs@[l] != '=',
        ensures
            out@ == rest.take(k - j - 1),
            forall|l: int| j + 1 <= l < k ==> cs@[l] != '=',
            k == cs@.len() || cs@[k as int] == '=',
        decreases cs@.len() - k,
    {
        if k >= cs.len() {
            break ;
        }
        let c = cs[k];
        if c == '=' {
            break ;
        }
        out.push(c);
        proof {
            assert(rest.take(k - j) =~= rest.take(k - j - 1).push(cs@[k as int]));
        }
        k = k + 1;
    }
    proof {
        assert(forall|l: int| 0 <= l < k - j - 1 ==> rest[l] == cs@[l + j + 1] && rest[l] != '=');
        if k < cs@.len() {
            assert(rest[k - j - 1] == '=');
        }
        lemma_eq_split(rest, k - j - 1);
        assert(out@ =~= upto_eq(rest));
    }
    crate::text::string_from_chars(&out)
}

#[derive(Clone, Debug, PartialEq)]
pub struct HealthConfig {
    pub test: Option<Vec<String>>,
    pub interval: Option<u64>,
    pub timeout: Option<u64>,
    pub retries: Option<u64>,
    pub start_period: Option<u64>,
}

#[derive(Clone, Debug, PartialEq)]
pub struct GraphDriverData {
    pub name: String,
    pub data: Vec<(String, String)>,
}

#[derive(Clone, Debug, PartialEq)]
pub struct RootFS {
    pub typ: String,
    pub layers: Option<Vec<String>>,
    pub base_layer: Option<String>,
}

#[derive(Clone, Debug, PartialEq)]
pub struct Metadata {
    pub last_tag_time: String,
}

#[derive(Clone, Debug, PartialEq)]
pub struct Port {
    pub ip: Option<String>,
    pub private_port: u64,
    pub public_port: Option<u64>,
    pub typ: String,
}

#[derive(Clone, Debug, PartialEq)]
pub struct Stats {
    pub read: String,
    pub networks: Vec<(String, Network)>,
    pub memory_stats: MemoryStats,
    pub blkio_stats: BlkioStats,
    pub cpu_stats: CpuStats,
}

#[derive(Clone, Debug, PartialEq)]
pub struct Network {
    pub rx_dropped: u64,
    pub rx_bytes: u64,
    pub rx_errors: u64,
    pub tx_packets: u64,
    pub tx_dropped: u64,
    pub rx_packets: u64,
    pub tx_errors: u64,
    pub tx_bytes: u64,
}

#[derive(Clone, Debug, PartialEq)]
pub struct IPAM {
    pub driver: String,
    pub config: Vec<Vec<(String, String)>>,
    pub options: Option<Vec<(String, String)>>,
}

#[derive(Clone, Debug, PartialEq)]
pub struct NetworkDetails {
    pub name: String,
    pub id: String,
    pub scope: String,
    pub driver: String,
    pub enable_ipv6: bool,
    pub ipam: IPAM,
    pub internal: bool,
    pub attachable: bool,
    pub containers: Vec<(String, NetworkContainerDetails)>,
    pub options: Option<Vec<(String, String)>>,
    pub labels: Option<Vec<(String, String)>>,
}

#[derive(Clone, Debug, PartialEq)]
pub struct NetworkContainerDetails {
    pub endpoint_id: String,
    pub mac_address: String,
    pub ipv4_address: String,
    pub ipv6_address: String,
}

#[derive(Clone, Debug, PartialEq)]
pub struct NetworkCreateInfo {
    pub id: String,
    pub warning: String,
}

#[derive(Clone, Debug, PartialEq)]
pub struct MemoryStats {
    pub max_usage: u64,
    pub usage: u64,
    pub failcnt: Option<u64>,
    pub limit: u64,
    pub stats: MemoryStat,
}

#[derive(Clone, Debug, PartialEq)]
pub struct MemoryStat {
    pub total_pgmajfault: u64,
    pub cache: u64,
    pub mapped_file: u64,
    pub total_inactive_file: u64,
    pub pgpgout: u64,
    pub rss: u64,
    pub total_mapped_file: u64,
    pub writeback: u64,
    pub unevictable: u64,
    pub pgpgin: u64,
    pub total_unevictable: u64,
    pub pgmajfault: u64,
    pub total_rss: u64,
    pub total_rss_huge: u64,
    pub total_writeback: u64,
    pub total_inactive_anon: u64,
    pub rss_huge: u64,
    pub hierarchical_memory_limit: u64,
    pub hierarchical_memsw_limit: u64,
    pub total_pgfault: u64,
    pub total_active_file: u64,
    pub active_anon: u64,
    pub total_active_anon: u64,
    pub total_pgpgout: u64,
    pub total_cache: u64,
    pub inactive_anon: u64,
    pub active_file: u64,
    pub pgfault: u64,
    pub inactive_file: u64,
    pub total_pgpgin: u64,
}

#[derive(Clone, Debug, PartialEq)]
pub struct CpuStats {
    pub cpu_usage: CpuUsage,
    pub system_cpu_usage: u64,
    pub throttling_data: ThrottlingData,
}

#[derive(Clone, Debug, PartialEq)]
pub struct CpuUsage {
    pub percpu_usage: Vec<u64>,
    pub usage_in_usermode: u64,
    pub total_usage: u64,
    pub usage_in_kernelmode: u64,
}

#[derive(Clone, Debug, PartialEq)]
pub struct ThrottlingData {
    pub periods: u64,
    pub throttled_periods: u64,
    pub throttled_time: u64,
}

#[derive(Clone, Debug, PartialEq)]
pub struct BlkioStats {
    pub io_service_bytes_recursive: Vec<BlkioStat>,
    pub io_serviced_recursive: Vec<BlkioStat>,
    pub io_queue_recursive: Vec<BlkioStat>,
    pub io_service_time_recursive: Vec<BlkioStat>,
    pub io_wait_time_recursive: Vec<BlkioStat>,
    pub io_merged_recursive: Vec<BlkioStat>,
    pub io_time_recursive: Vec<BlkioStat>,
    pub sectors_recursive: Vec<BlkioStat>,
}

#[derive(Clone, Debug, PartialEq)]
pub struct BlkioStat {
    pub major: u64,
    pub minor: u64,
    pub op: String,
    pub value: u64,
}

#[derive(Clone, Debug, PartialEq)]
pub struct Change {
    pub kind: u64,
    pub path: String,
}

#[derive(Clone, Debug, PartialEq)]
pub struct Top {
    pub titles: Vec<String>,
    pub processes: Vec<Vec<String>>,
}

#[derive(Clone, Debug, PartialEq)]
pub struct Version {
    pub version: String,
    pub api_version: String,
    pub git_commit: String,
    pub go_version: String,
    pub os: String,
    pub arch: String,
    pub kernel_version: String,
    pub build_time: String,
}

#[derive(Clone, Debug, PartialEq)]
pub struct Info {
    pub containers: u64,
    pub images: u64,
    pub driver: String,
    pub docker_root_dir: String,
    pub driver_status: Vec<Vec<String>>,
    pub id: String,
    pub kernel_version: String,
    pub mem_total: u64,
    pub memory_limit: bool,
    pub n_cpu: u64,
    pub n_events_listener: u64,
    pub n_goroutines: u64,
    pub name: String,
    pub operating_system: String,
    pub swap_limit: bool,
    pub system_time: Option<String>,
}

#[derive(Clone, Debug, PartialEq)]
pub struct ContainerCreateInfo {
    pub id: String,
    pub warnings: Option<Vec<String>>,
}

#[derive(Clone, Debug, PartialEq)]
pub struct History {
    pub id: String,
    pub created: i64,
    pub created_by: String,
    pub tags: Option<Vec<String>>,
    pub size: i64,
    pub comment: String,
}

#[derive(Clone, Debug, PartialEq)]
pub struct Exit {
    pub status_code: u64,
}

#[derive(Clone, Debug, PartialEq)]
pub struct Event {
    pub typ: String,
    pub action: String,
    pub actor: Actor,
    pub status: Option<String>,
    pub id: Option<String>,
    pub from: Option<String>,
    pub time: u64,
    pub time_nano: u64,
}

#[derive(Clone, Debug, PartialEq)]
pub struct ExecDetails {
    pub can_remove: bool,
    pub container_id: String,
    pub detach_keys: String,
    pub exit_code: Option<u64>,
    pub id: String,
    pub open_stderr: bool,
    pub open_stdin: bool,
    pub open_stdout: bool,
    pub process_config: ProcessConfig,
    pub running: bool,
    pub pid: u64,
}

#[derive(Clone, Debug, PartialEq)]
pub struct ProcessConfig {
    pub arguments: Vec<String>,
    pub entrypoint: String,
    pub privileged: bool,
    pub tty: bool,
    pub user: Option<String>,
}

#[derive(Clone, Debug, PartialEq)]
pub struct Actor {
    pub id: String,
    pub attributes: Vec<(String, String)>,
}

#[derive(Clone, Debug, PartialEq)]
pub enum Status {
    Untagged(String),
    Deleted(String),
}

#[derive(Clone, Debug, PartialEq)]
pub struct VolumeCreateInfo {
    pub name: String,
}

#[derive(Clone, Debug, PartialEq)]
pub struct Volumes {
    pub volumes: Option<Vec<Volume>>,
    pub warnings: Option<Vec<String>>,
}

#[derive(Clone, Debug, PartialEq)]
pub struct Volume {
    pub created_at: String,
    pub driver: String,
    pub labels: Option<Vec<(String, String)>>,
    pub name: String,
    pub mountpoint: String,
    pub options: Option<Vec<(String, String)>>,
    pub scope: String,
}

#[derive(Clone, Debug, PartialEq)]
pub struct ObjectVersion {
    pub index: u64,
}

#[derive(Clone, Debug, PartialEq)]
pub struct EndpointSpec {
    pub mode: Option<String>,
    pub ports: Option<Vec<EndpointPortConfig>>,
}

#[derive(Clone, Debug, PartialEq)]
pub struct EndpointPortConfig {
    pub name: Option<String>,
    pub protocol: String,
    pub publish_mode: String,
    pub published_port: Option<u64>,
    pub target_port: u64,
}

#[derive(Clone, Debug, PartialEq)]
pub struct ServiceStatus {
    pub running_tasks: u64,
    pub desired_tasks: u64,
    pub completed_tasks: u64,
}

#[derive(Clone, Debug, PartialEq)]
pub struct TaskSpec {}

#[derive(Clone, Debug, PartialEq)]
pub struct Replicated {
    pub replicas: u64,
}

#[derive(Clone, Debug, PartialEq)]
pub struct ReplicatedJob {
    pub max_concurrent: u64,
    pub total_completions: u64,
}

#[derive(Clone, Debug, PartialEq)]
pub struct UpdateConfig {
    pub parallelism: u64,
    pub delay: u64,
    pub failure_action: String,
    pub monitor: u64,
    pub max_failure_ratio: usize,
    pub order: String,
}

#[derive(Clone, Debug, PartialEq)]
pub struct ServiceCreateInfo {
    pub id: String,
    pub warning: Option<String>,
}

} // verus!
