//! Commands for the Embedded Controller.
//!
//! Every command is a fixed-size request paired with a fixed-size response.
//! Multi-byte fields are little-endian and fields follow each other without
//! padding. A command is pure data: it names its opcode, its protocol version
//! and its two payload shapes, and performs no I/O itself.

use vstd::prelude::*;
use crate::wire::{
    get_le32, le32, lemma_le32_of_le32_value, lemma_le32_value_of_le32, put_bytes, put_le32, zeros,
};

verus! {

/// The largest payload, in bytes, that a request or a response may have. It
/// keeps every size within the 32-bit size fields of a frame and every frame
/// within what a buffer can hold.
pub const MAX_PAYLOAD: usize = 0xffff;

/// A value with a fixed-size image on the wire.
///
/// The image determines the value: two values with the same image are equal,
/// and every byte string of the right length is the image of some value.
pub trait Wire: Sized {
    /// Length of the image in bytes.
    const SIZE: usize;

    /// The image of this value.
    spec fn to_wire(&self) -> Seq<u8>;

    /// The image is never longer than `MAX_PAYLOAD`.
    proof fn lemma_wire_size()
        ensures
            Self::SIZE <= MAX_PAYLOAD,
    ;

    /// The image of every value has the declared length.
    proof fn lemma_wire_len(&self)
        ensures
            self.to_wire().len() == Self::SIZE,
    ;

    /// Values with equal images are equal.
    proof fn lemma_wire_injective(a: &Self, b: &Self)
        requires
            a.to_wire() == b.to_wire(),
        ensures
            a == b,
    ;

    /// Writes the image of this value.
    fn encode(&self) -> (out: Vec<u8>)
        ensures
            out@ == self.to_wire(),
            out@.len() == Self::SIZE,
    ;

    /// Reads a value back from its image. Fails exactly when `bytes` has the
    /// wrong length.
    fn decode(bytes: &[u8]) -> (r: Option<Self>)
        ensures
            r is Some <==> bytes@.len() == Self::SIZE,
            r matches Some(v) ==> v.to_wire() == bytes@,
    ;
}

/// A controller operation: an opcode, a protocol version, a request shape
/// (the implementing type) and a response shape.
pub trait Command: Wire {
    /// The command ID.
    const CMD: Cmd;

    /// Command version.
    ///
    /// Some commands come in multiple versions.
    const VERSION: u32 = 0;

    /// The associated response type.
    type Response: Wire;
}

/// The known commands. The number that stands for a command in a frame is
/// given by `code`.
#[derive(Debug, Clone, Copy, PartialEq, Eq, Structural)]
pub enum Cmd {
    ProtoVersion,
    Hello,
    GetVersion,
    GetKeyboardBacklight,
    SetKeyboardBacklight,
    LedControl,
}

impl Cmd {
    /// The number that stands for this command in a frame.
    pub open spec fn spec_code(self) -> u32 {
        match self {
            Cmd::ProtoVersion => 0x0000,
            Cmd::Hello => 0x0001,
            Cmd::GetVersion => 0x0002,
            Cmd::GetKeyboardBacklight => 0x0022,
            Cmd::SetKeyboardBacklight => 0x0023,
            Cmd::LedControl => 0x0029,
        }
    }

    /// The number that stands for this command in a frame.
    pub fn code(self) -> (c: u32)
        ensures
            c == self.spec_code(),
    {
        match self {
            Cmd::ProtoVersion => 0x0000,
            Cmd::Hello => 0x0001,
            Cmd::GetVersion => 0x0002,
            Cmd::GetKeyboardBacklight => 0x0022,
            Cmd::SetKeyboardBacklight => 0x0023,
            Cmd::LedControl => 0x0029,
        }
    }
}

//////////////////////////////////
// Hello
//////////////////////////////////

/// What a genuine controller adds to the word of a `Hello`.
pub const HELLO_OFFSET: u32 = 0x01020304;

/// Liveness probe: the controller answers with `in_data + HELLO_OFFSET`.
#[derive(Debug, Clone, Copy, PartialEq, Eq, Structural)]
pub struct Hello {
    pub in_data: u32,
}

/// The word that the controller answers a `Hello` with.
#[derive(Debug, Clone, Copy, PartialEq, Eq, Structural)]
pub struct HelloResponse {
    pub out_data: u32,
}

impl Hello {
    /// The answer a genuine controller gives: the word plus `HELLO_OFFSET`,
    /// reduced modulo 2^32.
    pub open spec fn spec_expected(self) -> HelloResponse {
        HelloResponse { out_data: ((self.in_data + HELLO_OFFSET) % 0x1_0000_0000) as u32 }
    }

    /// The answer a genuine controller gives.
    pub fn expected(&self) -> (r: HelloResponse)
        ensures
            r == self.spec_expected(),
    {
        HelloResponse { out_data: self.in_data.wrapping_add(HELLO_OFFSET) }
    }
}

impl Wire for Hello {
    const SIZE: usize = 4;

    open spec fn to_wire(&self) -> Seq<u8> {
        le32(self.in_data)
    }

    proof fn lemma_wire_size() {
    }

    proof fn lemma_wire_len(&self) {
    }

    proof fn lemma_wire_injective(a: &Self, b: &Self) {
        lemma_le32_value_of_le32(a.in_data);
        lemma_le32_value_of_le32(b.in_data);
    }

    fn encode(&self) -> (out: Vec<u8>) {
        let mut out = Vec::new();
        put_le32(&mut out, self.in_data);
        out
    }

    fn decode(bytes: &[u8]) -> (r: Option<Self>) {
        if bytes.len() != 4 {
            return None;
        }
        let in_data = get_le32(bytes, 0);
        proof {
            assert(bytes@.subrange(0, 4) =~= bytes@);
            lemma_le32_of_le32_value(bytes@);
        }
        Some(Hello { in_data })
    }
}

impl Wire for HelloResponse {
    const SIZE: usize = 4;

    open spec fn to_wire(&self) -> Seq<u8> {
        le32(self.out_data)
    }

    proof fn lemma_wire_size() {
    }

    proof fn lemma_wire_len(&self) {
    }

    proof fn lemma_wire_injective(a: &Self, b: &Self) {
        lemma_le32_value_of_le32(a.out_data);
        lemma_le32_value_of_le32(b.out_data);
    }

    fn encode(&self) -> (out: Vec<u8>) {
        let mut out = Vec::new();
        put_le32(&mut out, self.out_data);
        out
    }

    fn decode(bytes: &[u8]) -> (r: Option<Self>) {
        if bytes.len() != 4 {
            return None;
        }
        let out_data = get_le32(bytes, 0);
        proof {
            assert(bytes@.subrange(0, 4) =~= bytes@);
            lemma_le32_of_le32_value(bytes@);
        }
        Some(HelloResponse { out_data })
    }
}

impl Command for Hello {
    const CMD: Cmd = Cmd::Hello;

    type Response = HelloResponse;
}

//////////////////////////////////
// GetVersion
//////////////////////////////////

/// Query of the firmware identity.
#[derive(Debug, Clone, Copy, PartialEq, Eq, Structural)]
pub struct GetVersion;

/// Firmware identity: three text buffers of 32 bytes each and the indicator
/// of the active image. The buffers are carried as raw bytes.
#[derive(Debug, Clone, Copy)]
pub struct GetVersionResponse {
    version_string_ro: [u8; 32],
    version_string_rw: [u8; 32],
    reserved: [u8; 32],
    current_image: u32,
}

/// What a `GetVersionResponse` holds.
pub struct VersionInfo {
    pub version_string_ro: Seq<u8>,
    pub version_string_rw: Seq<u8>,
    pub reserved: Seq<u8>,
    pub current_image: u32,
}

impl View for GetVersionResponse {
    type V = VersionInfo;

    closed spec fn view(&self) -> VersionInfo {
        VersionInfo {
            version_string_ro: self.version_string_ro@,
            version_string_rw: self.version_string_rw@,
            reserved: self.reserved@,
            current_image: self.current_image,
        }
    }
}

impl GetVersionResponse {
    /// Each of the three buffers holds 32 bytes.
    pub proof fn lemma_buffer_lengths(&self)
        ensures
            self@.version_string_ro.len() == 32,
            self@.version_string_rw.len() == 32,
            self@.reserved.len() == 32,
    {
    }
}

/// Reads the `N` bytes that start at offset `at` into an array.
fn get_array<const N: usize>(bytes: &[u8], at: usize) -> (a: [u8; N])
    requires
        at + N <= bytes.len(),
    ensures
        a@ == bytes@.subrange(at as int, at + N),
{
    let mut a = [0u8; N];
    let mut i: usize = 0;
    while i < N
        invariant
            i <= N,
            at + N <= bytes.len(),
            a@.len() == N,
            forall|j: int| 0 <= j < i ==> a@[j] == bytes@[at + j],
        decreases N - i,
    {
        a[i] = bytes[at + i];
        i += 1;
    }
    assert(a@ =~= bytes@.subrange(at as int, at + N));
    a
}

impl Wire for GetVersion {
    const SIZE: usize = 0;

    open spec fn to_wire(&self) -> Seq<u8> {
        Seq::empty()
    }

    proof fn lemma_wire_size() {
    }

    proof fn lemma_wire_len(&self) {
    }

    proof fn lemma_wire_injective(a: &Self, b: &Self) {
    }

    fn encode(&self) -> (out: Vec<u8>) {
        Vec::new()
    }

    fn decode(bytes: &[u8]) -> (r: Option<Self>) {
        if bytes.len() != 0 {
            return None;
        }
        assert(bytes@ =~= Seq::empty());
        Some(GetVersion)
    }
}

impl Wire for GetVersionResponse {
    const SIZE: usize = 100;

    open spec fn to_wire(&self) -> Seq<u8> {
        self@.version_string_ro + self@.version_string_rw + self@.reserved + le32(
            self@.current_image,
        )
    }

    proof fn lemma_wire_size() {
    }

    proof fn lemma_wire_len(&self) {
    }

    proof fn lemma_wire_injective(a: &Self, b: &Self) {
        let w = a.to_wire();
        assert(a.version_string_ro@ =~= w.subrange(0, 32));
        assert(b.version_string_ro@ =~= w.subrange(0, 32));
        assert(a.version_string_rw@ =~= w.subrange(32, 64));
        assert(b.version_string_rw@ =~= w.subrange(32, 64));
        assert(a.reserved@ =~= w.subrange(64, 96));
        assert(b.reserved@ =~= w.subrange(64, 96));
        assert(le32(a.current_image) =~= w.subrange(96, 100));
        assert(le32(b.current_image) =~= w.subrange(96, 100));
        lemma_le32_value_of_le32(a.current_image);
        lemma_le32_value_of_le32(b.current_image);
        assert(a.version_string_ro =~= b.version_string_ro);
        assert(a.version_string_rw =~= b.version_string_rw);
        assert(a.reserved =~= b.reserved);
    }

    fn encode(&self) -> (out: Vec<u8>) {
        let mut out = Vec::new();
        put_bytes(&mut out, self.version_string_ro.as_slice());
        put_bytes(&mut out, self.version_string_rw.as_slice());
        put_bytes(&mut out, self.reserved.as_slice());
        put_le32(&mut out, self.current_image);
        out
    }

    fn decode(bytes: &[u8]) -> (r: Option<Self>) {
        if bytes.len() != 100 {
            return None;
        }
        let v = GetVersionResponse {
            version_string_ro: get_array::<32>(bytes, 0),
            version_string_rw: get_array::<32>(bytes, 32),
            reserved: get_array::<32>(bytes, 64),
            current_image: get_le32(bytes, 96),
        };
        proof {
            lemma_le32_of_le32_value(bytes@.subrange(96, 100));
            assert(v.to_wire() =~= bytes@);
        }
        Some(v)
    }
}

impl Command for GetVersion {
    const CMD: Cmd = Cmd::GetVersion;

    type Response = GetVersionResponse;
}

//////////////////////////////////
// GetKeyboardBacklight
//////////////////////////////////

/// Query of the keyboard backlight state.
#[derive(Debug, Clone, Copy, PartialEq, Eq, Structural)]
pub struct GetKeyboardBacklight;

/// Keyboard backlight state: the brightness as a byte and whether the
/// backlight is enabled (any value but zero).
#[derive(Debug, Clone, Copy, PartialEq, Eq, Structural)]
pub struct GetKeyboardBacklightResponse {
    pub percent: u8,
    pub enabled: u8,
}

impl Wire for GetKeyboardBacklight {
    const SIZE: usize = 0;

    open spec fn to_wire(&self) -> Seq<u8> {
        Seq::empty()
    }

    proof fn lemma_wire_size() {
    }

    proof fn lemma_wire_len(&self) {
    }

    proof fn lemma_wire_injective(a: &Self, b: &Self) {
    }

    fn encode(&self) -> (out: Vec<u8>) {
        Vec::new()
    }

    fn decode(bytes: &[u8]) -> (r: Option<Self>) {
        if bytes.len() != 0 {
            return None;
        }
        assert(bytes@ =~= Seq::empty());
        Some(GetKeyboardBacklight)
    }
}

impl Wire for GetKeyboardBacklightResponse {
    const SIZE: usize = 2;

    open spec fn to_wire(&self) -> Seq<u8> {
        seq![self.percent, self.enabled]
    }

    proof fn lemma_wire_size() {
    }

    proof fn lemma_wire_len(&self) {
    }

    proof fn lemma_wire_injective(a: &Self, b: &Self) {
        assert(a.to_wire()[0] == a.percent && a.to_wire()[1] == a.enabled);
        assert(b.to_wire()[0] == b.percent && b.to_wire()[1] == b.enabled);
    }

    fn encode(&self) -> (out: Vec<u8>) {
        let mut out = Vec::new();
        out.push(self.percent);
        out.push(self.enabled);
        assert(out@ =~= self.to_wire());
        out
    }

    fn decode(bytes: &[u8]) -> (r: Option<Self>) {
        if bytes.len() != 2 {
            return None;
        }
        let v = GetKeyboardBacklightResponse { percent: bytes[0], enabled: bytes[1] };
        assert(v.to_wire() =~= bytes@);
        Some(v)
    }
}

impl Command for GetKeyboardBacklight {
    const CMD: Cmd = Cmd::GetKeyboardBacklight;

    type Response = GetKeyboardBacklightResponse;
}

//////////////////////////////////
// SetKeyboardBacklight
//////////////////////////////////

/// Sets the keyboard backlight brightness.
#[derive(Debug, Clone, Copy, PartialEq, Eq, Structural)]
pub struct SetKeyboardBacklight {
    pub percent: u8,
}

/// The empty answer to a `SetKeyboardBacklight`.
#[derive(Debug, Clone, Copy, PartialEq, Eq, Structural)]
pub struct SetKeyboardBacklightResponse;

impl Wire for SetKeyboardBacklight {
    const SIZE: usize = 1;

    open spec fn to_wire(&self) -> Seq<u8> {
        seq![self.percent]
    }

    proof fn lemma_wire_size() {
    }

    proof fn lemma_wire_len(&self) {
    }

    proof fn lemma_wire_injective(a: &Self, b: &Self) {
        assert(a.to_wire()[0] == a.percent);
        assert(b.to_wire()[0] == b.percent);
    }

    fn encode(&self) -> (out: Vec<u8>) {
        let mut out = Vec::new();
        out.push(self.percent);
        assert(out@ =~= self.to_wire());
        out
    }

    fn decode(bytes: &[u8]) -> (r: Option<Self>) {
        if bytes.len() != 1 {
            return None;
        }
        let v = SetKeyboardBacklight { percent: bytes[0] };
        assert(v.to_wire() =~= bytes@);
        Some(v)
    }
}

impl Wire for SetKeyboardBacklightResponse {
    const SIZE: usize = 0;

    open spec fn to_wire(&self) -> Seq<u8> {
        Seq::empty()
    }

    proof fn lemma_wire_size() {
    }

    proof fn lemma_wire_len(&self) {
    }

    proof fn lemma_wire_injective(a: &Self, b: &Self) {
    }

    fn encode(&self) -> (out: Vec<u8>) {
        Vec::new()
    }

    fn decode(bytes: &[u8]) -> (r: Option<Self>) {
        if bytes.len() != 0 {
            return None;
        }
        assert(bytes@ =~= Seq::empty());
        Some(SetKeyboardBacklightResponse)
    }
}

impl Command for SetKeyboardBacklight {
    const CMD: Cmd = Cmd::SetKeyboardBacklight;

    type Response = SetKeyboardBacklightResponse;
}

/// A controller that honors the protocol keeps the byte of a set-backlight
/// request and reports it, followed by the enabled flag, in the next
/// get-backlight response. Reading that response gives back the percentage
/// that was set.
pub proof fn lemma_set_then_get(percent: u8, enabled: u8, response: GetKeyboardBacklightResponse)
    requires
        percent <= 100,
        response.to_wire() == (SetKeyboardBacklight { percent }).to_wire().push(enabled),
    ensures
        response.percent == percent,
        response.enabled == enabled,
{
    assert(response.to_wire()[0] == response.percent);
    assert(response.to_wire()[1] == response.enabled);
}

//////////////////////////////////
// LedControl
//////////////////////////////////

/// Controls an indicator LED, or queries what it supports.
#[derive(Debug, Clone, Copy)]
pub struct LedControl {
    pub led_id: LedId,
    pub flags: LedFlags,
    pub brightness: LedBrightnesses,
}

/// Identifier of an indicator LED.
#[derive(Debug, Clone, Copy)]
pub struct LedId(u8);

impl View for LedId {
    type V = u8;

    closed spec fn view(&self) -> u8 {
        self.0
    }
}

impl LedId {
    pub fn battery() -> (id: Self)
        ensures
            id@ == 0,
    {
        LedId(0)
    }

    pub fn power() -> (id: Self)
        ensures
            id@ == 1,
    {
        LedId(1)
    }

    pub fn adapter() -> (id: Self)
        ensures
            id@ == 2,
    {
        LedId(2)
    }

    pub fn left() -> (id: Self)
        ensures
            id@ == 3,
    {
        LedId(3)
    }

    pub fn right() -> (id: Self)
        ensures
            id@ == 4,
    {
        LedId(4)
    }

    pub fn recovery_hw_reinit() -> (id: Self)
        ensures
            id@ == 5,
    {
        LedId(5)
    }

    pub fn sysrq_debug() -> (id: Self)
        ensures
            id@ == 6,
    {
        LedId(6)
    }
}

/// Flags of an LED command.
#[derive(Debug, Clone, Copy)]
pub struct LedFlags(u8);

impl View for LedFlags {
    type V = u8;

    closed spec fn view(&self) -> u8 {
        self.0
    }
}

impl LedFlags {
    /// Apply the brightness levels of the command.
    pub fn none() -> (flags: Self)
        ensures
            flags@ == 0,
    {
        LedFlags(0)
    }

    /// Report the brightness range of each color channel.
    pub fn query() -> (flags: Self)
        ensures
            flags@ == 1,
    {
        LedFlags(1)
    }

    /// Hand the LED back to the controller's own control.
    pub fn auto() -> (flags: Self)
        ensures
            flags@ == 2,
    {
        LedFlags(2)
    }
}

impl Default for LedFlags {
    fn default() -> (flags: Self)
        ensures
            flags@ == 0,
    {
        LedFlags(0)
    }
}

/// A color channel of an indicator LED.
pub struct LedColor(u8);

impl View for LedColor {
    type V = nat;

    closed spec fn view(&self) -> nat {
        self.0 as nat
    }
}

impl LedColor {
    /// Number of color channels.
    pub const COUNT: usize = 6;

    #[verifier::type_invariant]
    spec fn in_range(self) -> bool {
        self.0 < 6
    }

    pub fn red() -> (color: Self)
        ensures
            color@ == 0,
    {
        LedColor(0)
    }

    pub fn green() -> (color: Self)
        ensures
            color@ == 1,
    {
        LedColor(1)
    }

    pub fn blue() -> (color: Self)
        ensures
            color@ == 2,
    {
        LedColor(2)
    }

    pub fn yellow() -> (color: Self)
        ensures
            color@ == 3,
    {
        LedColor(3)
    }

    pub fn white() -> (color: Self)
        ensures
            color@ == 4,
    {
        LedColor(4)
    }

    pub fn amber() -> (color: Self)
        ensures
            color@ == 5,
    {
        LedColor(5)
    }

    /// Position of this channel in a brightness array.
    pub fn index(&self) -> (i: usize)
        ensures
            i == self@,
            i < LedColor::COUNT,
    {
        proof {
            use_type_invariant(self);
        }
        self.0 as usize
    }
}

/// One brightness level per color channel, in the order red, green, blue,
/// yellow, white, amber.
#[derive(Debug, Clone, Copy)]
pub struct LedBrightnesses {
    raw: [u8; 6],
}

impl View for LedBrightnesses {
    type V = Seq<u8>;

    closed spec fn view(&self) -> Seq<u8> {
        self.raw@
    }
}

impl Default for LedBrightnesses {
    fn default() -> (levels: Self)
        ensures
            levels@ == zeros(6),
    {
        let levels = LedBrightnesses { raw: [0u8; 6] };
        assert(levels@ =~= zeros(6));
        levels
    }
}

impl LedBrightnesses {
    /// There is one level per color channel.
    pub proof fn lemma_len(&self)
        ensures
            self@.len() == LedColor::COUNT,
    {
    }

    /// All channels dark but `color`, which is set to `brightness`.
    pub fn single(color: LedColor, brightness: u8) -> (levels: Self)
        ensures
            levels@ == zeros(6).update(color@ as int, brightness),
    {
        Self::default().set(color, brightness)
    }

    /// These levels with the channel `color` set to `brightness`.
    pub fn set(self, color: LedColor, brightness: u8) -> (levels: Self)
        ensures
            levels@ == self@.update(color@ as int, brightness),
    {
        let i = color.index();
        let mut levels = self;
        levels.raw[i] = brightness;
        levels
    }
}

/// The brightness levels that an LED command resulted in.
#[derive(Debug, Clone, Copy)]
pub struct LedControlResponse {
    brightness: LedBrightnesses,
}

impl Default for LedControlResponse {
    fn default() -> (response: Self)
        ensures
            response@ == zeros(6),
    {
        LedControlResponse { brightness: LedBrightnesses::default() }
    }
}

impl View for LedControlResponse {
    type V = Seq<u8>;

    closed spec fn view(&self) -> Seq<u8> {
        self.brightness@
    }
}

impl Wire for LedControl {
    const SIZE: usize = 8;

    open spec fn to_wire(&self) -> Seq<u8> {
        seq![self.led_id@, self.flags@] + self.brightness@
    }

    proof fn lemma_wire_size() {
    }

    proof fn lemma_wire_len(&self) {
    }

    proof fn lemma_wire_injective(a: &Self, b: &Self) {
        let w = a.to_wire();
        assert(a.led_id.0 == w[0] && b.led_id.0 == w[0]);
        assert(a.flags.0 == w[1] && b.flags.0 == w[1]);
        assert(a.brightness.raw@ =~= w.subrange(2, 8));
        assert(b.brightness.raw@ =~= w.subrange(2, 8));
        assert(a.brightness.raw =~= b.brightness.raw);
    }

    fn encode(&self) -> (out: Vec<u8>) {
        let mut out = Vec::new();
        out.push(self.led_id.0);
        out.push(self.flags.0);
        put_bytes(&mut out, self.brightness.raw.as_slice());
        assert(out@ =~= self.to_wire());
        out
    }

    fn decode(bytes: &[u8]) -> (r: Option<Self>) {
        if bytes.len() != 8 {
            return None;
        }
        let v = LedControl {
            led_id: LedId(bytes[0]),
            flags: LedFlags(bytes[1]),
            brightness: LedBrightnesses { raw: get_array::<6>(bytes, 2) },
        };
        assert(v.to_wire() =~= bytes@);
        Some(v)
    }
}

impl Wire for LedControlResponse {
    const SIZE: usize = 6;

    open spec fn to_wire(&self) -> Seq<u8> {
        self@
    }

    proof fn lemma_wire_size() {
    }

    proof fn lemma_wire_len(&self) {
    }

    proof fn lemma_wire_injective(a: &Self, b: &Self) {
        assert(a.brightness.raw =~= b.brightness.raw);
    }

    fn encode(&self) -> (out: Vec<u8>) {
        let mut out = Vec::new();
        put_bytes(&mut out, self.brightness.raw.as_slice());
        out
    }

    fn decode(bytes: &[u8]) -> (r: Option<Self>) {
        if bytes.len() != 6 {
            return None;
        }
        let v = LedControlResponse { brightness: LedBrightnesses { raw: get_array::<6>(bytes, 0) } };
        assert(v.to_wire() =~= bytes@);
        Some(v)
    }
}

impl Command for LedControl {
    const CMD: Cmd = Cmd::LedControl;

    // Version 0 of this command does not work and returns unexpected data.
    const VERSION: u32 = 1;

    type Response = LedControlResponse;
}

} // verus!
