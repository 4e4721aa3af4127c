//! A small model of symbolic music: pitch classes, octaves, notes, dynamics,
//! modes, scales, chords and tempo markings, with their MIDI numbers.

use vstd::prelude::*;

verus! {

/// The twelve pitch classes of the chromatic scale, named with sharps.
#[derive(Debug, Clone, Copy, PartialEq, Eq, Structural)]
pub enum PitchClass {
    /// C natural.
    C,
    /// C sharp.
    Cs,
    /// D natural.
    D,
    /// D sharp.
    Ds,
    /// E natural.
    E,
    /// F natural.
    F,
    /// F sharp.
    Fs,
    /// G natural.
    G,
    /// G sharp.
    Gs,
    /// A natural.
    A,
    /// A sharp.
    As,
    /// B natural.
    B,
}

impl PitchClass {
    /// The number of semitones from C up to this pitch class.
    pub open spec fn semitones(self) -> int {
        match self {
            PitchClass::C => 0,
            PitchClass::Cs => 1,
            PitchClass::D => 2,
            PitchClass::Ds => 3,
            PitchClass::E => 4,
            PitchClass::F => 5,
            PitchClass::Fs => 6,
            PitchClass::G => 7,
            PitchClass::Gs => 8,
            PitchClass::A => 9,
            PitchClass::As => 10,
            PitchClass::B => 11,
        }
    }

    /// The pitch class that lies `value` semitones above C; C itself for a
    /// `value` of twelve or more.
    pub open spec fn of_semitones(value: int) -> PitchClass {
        if value == 1 {
            PitchClass::Cs
        } else if value == 2 {
            PitchClass::D
        } else if value == 3 {
            PitchClass::Ds
        } else if value == 4 {
            PitchClass::E
        } else if value == 5 {
            PitchClass::F
        } else if value == 6 {
            PitchClass::Fs
        } else if value == 7 {
            PitchClass::G
        } else if value == 8 {
            PitchClass::Gs
        } else if value == 9 {
            PitchClass::A
        } else if value == 10 {
            PitchClass::As
        } else if value == 11 {
            PitchClass::B
        } else {
            PitchClass::C
        }
    }

    /// The MIDI number of this pitch class in the lowest octave.
    pub fn midi_base(&self) -> (base: u8)
        ensures
            base == self.semitones(),
            base < 12,
    {
        self.into()
    }
}

impl vstd::std_specs::convert::IntoSpecImpl<u8> for &PitchClass {
    open spec fn obeys_into_spec() -> bool {
        true
    }

    open spec fn into_spec(self) -> u8 {
        self.semitones() as u8
    }
}

impl Into<u8> for &PitchClass {
    fn into(self) -> (value: u8) {
        match self {
            PitchClass::C => 0,
            PitchClass::Cs => 1,
            PitchClass::D => 2,
            PitchClass::Ds => 3,
            PitchClass::E => 4,
            PitchClass::F => 5,
            PitchClass::Fs => 6,
            PitchClass::G => 7,
            PitchClass::Gs => 8,
            PitchClass::A => 9,
            PitchClass::As => 10,
            PitchClass::B => 11,
        }
    }
}

impl vstd::std_specs::convert::FromSpecImpl<u8> for PitchClass {
    open spec fn obeys_from_spec() -> bool {
        true
    }

    open spec fn from_spec(value: u8) -> PitchClass {
        PitchClass::of_semitones(value as int)
    }
}

impl From<u8> for PitchClass {
    fn from(value: u8) -> (pitch: PitchClass) {
        match value {
            1 => PitchClass::Cs,
            2 => PitchClass::D,
            3 => PitchClass::Ds,
            4 => PitchClass::E,
            5 => PitchClass::F,
            6 => PitchClass::Fs,
            7 => PitchClass::G,
            8 => PitchClass::Gs,
            9 => PitchClass::A,
            10 => PitchClass::As,
            11 => PitchClass::B,
            _ => PitchClass::C,
        }
    }
}

/// Going to the number of semitones and back gives the same pitch class, and
/// every number below twelve is the number of the pitch class it gives.
pub proof fn lemma_pitch_class_round_trip(pitch: PitchClass, value: int)
    ensures
        PitchClass::of_semitones(pitch.semitones()) == pitch,
        0 <= pitch.semitones() < 12,
        0 <= value < 12 ==> PitchClass::of_semitones(value).semitones() == value,
{
}

/// An octave of the pitch system. Octave 4 holds middle C; octave -1 is the
/// lowest that MIDI numbers reach.
#[derive(Debug, Clone, Copy, PartialEq, Eq, Structural)]
pub struct Octave(i8);

impl Octave {
    /// The number of the octave.
    pub closed spec fn number(self) -> i8 {
        self.0
    }

    /// The octave with the number `octave_num`.
    pub fn new(octave_num: i8) -> (octave: Self)
        ensures
            octave.number() == octave_num,
    {
        Octave(octave_num)
    }

    /// The number of the octave.
    pub fn num(self) -> (n: i8)
        ensures
            n == self.number(),
    {
        self.0
    }
}

/// A note: a pitch class in an octave.
#[derive(Debug, Clone, Copy, PartialEq, Eq, Structural)]
pub struct Note {
    /// The pitch class.
    pub pitch_cls: PitchClass,
    /// The octave.
    pub octave: Octave,
}

impl Note {
    /// The number of semitones from the C of octave -1 up to this note.
    pub open spec fn semitones(self) -> int {
        self.pitch_cls.semitones() + (self.octave.number() + 1) * 12
    }

    /// The MIDI number of the note: its semitones from the C of octave -1,
    /// wrapped into eight bits.
    pub open spec fn midi_number(self) -> int {
        self.semitones() % 256
    }

    /// The MIDI number of the note.
    pub fn as_midi_number(self) -> (number: u8)
        ensures
            number == self.midi_number(),
            -1 <= self.octave.number() <= 9 ==> number == self.semitones(),
    {
        self.into()
    }
}

impl vstd::std_specs::convert::IntoSpecImpl<u8> for Note {
    open spec fn obeys_into_spec() -> bool {
        true
    }

    open spec fn into_spec(self) -> u8 {
        self.midi_number() as u8
    }
}

impl Into<u8> for Note {
    fn into(self) -> (number: u8) {
        let midi_base: i16 = self.pitch_cls.midi_base() as i16;
        let octave: i16 = (self.octave.num() as i16 + 1) * 12;
        let total: i16 = midi_base + octave;
        let whole: i16 = total / 256;
        let wrapped: i16 = total % 256;
        proof {
            crate::fixed::lemma_floor_from_truncated(
                total as int,
                256,
                whole as int,
                wrapped as int,
            );
        }
        if wrapped < 0 {
            (wrapped + 256) as u8
        } else {
            wrapped as u8
        }
    }
}

/// How loud a note is played.
#[derive(Debug, Clone, Copy, PartialEq, Eq, Structural)]
pub enum Dynamic {
    /// Very soft.
    Pianissimo,
    /// Soft.
    Piano,
    /// Medium soft.
    MezzoPiano,
    /// Medium loud.
    MezzoForte,
    /// Loud.
    Forte,
    /// Very loud.
    Fortissimo,
    /// A velocity of the caller's choice.
    Custom(u8),
}

impl Dynamic {
    /// The MIDI velocity that stands for the dynamic.
    pub open spec fn velocity(self) -> int {
        match self {
            Dynamic::Pianissimo => 16,
            Dynamic::Piano => 32,
            Dynamic::MezzoPiano => 48,
            Dynamic::MezzoForte => 64,
            Dynamic::Forte => 80,
            Dynamic::Fortissimo => 112,
            Dynamic::Custom(velocity) => velocity as int,
        }
    }

    /// The MIDI velocity that stands for the dynamic.
    pub fn as_midi_velocity(self) -> (velocity: u8)
        ensures
            velocity == self.velocity(),
    {
        self.into()
    }
}

impl vstd::std_specs::convert::IntoSpecImpl<u8> for Dynamic {
    open spec fn obeys_into_spec() -> bool {
        true
    }

    open spec fn into_spec(self) -> u8 {
        self.velocity() as u8
    }
}

impl Into<u8> for Dynamic {
    fn into(self) -> (velocity: u8) {
        match self {
            Dynamic::Pianissimo => 16,
            Dynamic::Piano => 32,
            Dynamic::MezzoPiano => 48,
            Dynamic::MezzoForte => 64,
            Dynamic::Forte => 80,
            Dynamic::Fortissimo => 112,
            Dynamic::Custom(velocity) => velocity,
        }
    }
}

/// How long a note or a rest lasts.
#[derive(Debug, Clone, Copy, PartialEq)]
pub enum Duration {
    /// Four beats.
    Whole,
    /// Two beats.
    Half,
    /// One beat.
    Quarter,
    /// Half a beat.
    Eighth,
    /// A quarter of a beat.
    Sixteenth,
    /// One and a half times the duration it refers to.
    Dotted(&'static Duration),
    /// A third of the duration it refers to.
    Triplet(&'static Duration),
    /// A duration of the caller's choice, in millionths of a beat.
    Custom(i64),
}

/// The interval pattern of a scale: seven steps, counted in semitones, that
/// lead from the root through the scale.
#[derive(Debug, Clone, Copy, PartialEq, Eq)]
pub enum Mode {
    /// The same pattern as `Major`.
    Ionian,
    /// The major scale.
    Major,
    /// Minor with a raised sixth.
    Dorian,
    /// Minor with a lowered second.
    Phrygian,
    /// Major with a raised fourth.
    Lydian,
    /// Major with a lowered seventh.
    Mixolydian,
    /// The same pattern as `NaturalMinor`.
    Aeolian,
    /// The natural minor scale.
    NaturalMinor,
    /// The diminished scale.
    Locrian,
    /// A pattern of the caller's choice.
    Custom(&'static [u8; 7]),
}

impl Mode {
    /// The seven steps of the mode.
    pub open spec fn pattern(self) -> Seq<u8> {
        match self {
            Mode::Ionian | Mode::Major => seq![2u8, 2, 1, 2, 2, 2, 1],
            Mode::Dorian => seq![2u8, 1, 2, 2, 2, 1, 2],
            Mode::Phrygian => seq![1u8, 2, 2, 2, 1, 2, 2],
            Mode::Lydian => seq![2u8, 2, 2, 1, 2, 2, 1],
            Mode::Mixolydian => seq![2u8, 2, 1, 2, 2, 1, 2],
            Mode::Aeolian | Mode::NaturalMinor => seq![2u8, 1, 2, 2, 1, 2, 2],
            Mode::Locrian => seq![1u8, 2, 2, 1, 2, 2, 2],
            Mode::Custom(intervals) => intervals@,
        }
    }

    /// The seven steps of the mode, in semitones.
    pub fn intervals(self) -> (steps: &'static [u8])
        ensures
            steps@ == self.pattern(),
            steps@.len() == 7,
    {
        match self {
            Mode::Ionian | Mode::Major => &[2, 2, 1, 2, 2, 2, 1],
            Mode::Dorian => &[2, 1, 2, 2, 2, 1, 2],
            Mode::Phrygian => &[1, 2, 2, 2, 1, 2, 2],
            Mode::Lydian => &[2, 2, 2, 1, 2, 2, 1],
            Mode::Mixolydian => &[2, 2, 1, 2, 2, 1, 2],
            Mode::Aeolian | Mode::NaturalMinor => &[2, 1, 2, 2, 1, 2, 2],
            Mode::Locrian => &[1, 2, 2, 1, 2, 2, 2],
            Mode::Custom(intervals) => intervals,
        }
    }
}

/// The number of semitones, within the octave, from C up to degree `k` of the
/// scale that starts `root` semitones above C and moves by `steps`.
pub open spec fn degree(root: int, steps: Seq<u8>, k: int) -> int
    decreases k,
{
    if k <= 0 {
        root
    } else {
        (degree(root, steps, k - 1) + steps[k - 1]) % 12
    }
}

/// A scale: a root and the mode that leads from it through the octave.
#[derive(Debug, Clone, PartialEq, Eq)]
pub struct Scale {
    /// The root of the scale.
    pub root: PitchClass,
    /// The interval pattern of the scale.
    pub mode: Mode,
}

/// A key is a scale.
pub type Key = Scale;

impl Scale {
    /// None of the first six steps of the mode is so wide that adding it to a
    /// pitch class would leave eight bits.
    pub open spec fn steps_fit(self) -> bool {
        forall|k: int| 0 <= k < 6 ==> (#[trigger] self.mode.pattern()[k]) <= 244
    }

    /// The seven notes of the scale within `octave`: the root, then one note
    /// for each of the first six steps of the mode, each one step above the
    /// last and folded back into the octave.
    pub fn notes(self, octave: Octave) -> (notes: Vec<Note>)
        requires
            self.steps_fit(),
        ensures
            notes.len() == 7,
            notes[0].pitch_cls == self.root,
            forall|k: int|
                0 <= k < 7 ==> (#[trigger] notes[k]).pitch_cls == PitchClass::of_semitones(
                    degree(self.root.semitones(), self.mode.pattern(), k),
                ),
            forall|k: int| 0 <= k < 7 ==> (#[trigger] notes[k]).octave == octave,
    {
        let intervals = self.mode.intervals();
        let mut current_note: u8 = self.root.midi_base();
        let mut notes: Vec<Note> = Vec::with_capacity(7);
        notes.push(Note { pitch_cls: self.root, octave });
        proof {
            lemma_pitch_class_round_trip(self.root, 0);
        }
        let mut i: usize = 0;
        while i < 6
            invariant
                i <= 6,
                self.steps_fit(),
                intervals@ == self.mode.pattern(),
                intervals@.len() == 7,
                notes.len() == i + 1,
                current_note < 12,
                current_note == degree(self.root.semitones(), self.mode.pattern(), i as int),
                notes[0].pitch_cls == self.root,
                forall|k: int|
                    0 <= k <= i ==> (#[trigger] notes[k]).pitch_cls == PitchClass::of_semitones(
                        degree(self.root.semitones(), self.mode.pattern(), k),
                    ),
                forall|k: int| 0 <= k <= i ==> (#[trigger] notes[k]).octave == octave,
            decreases 6 - i,
        {
            let step: u8 = intervals[i];
            assert(step == self.mode.pattern()[i as int]);
            current_note = (current_note + step) % 12;
            notes.push(Note { pitch_cls: PitchClass::from(current_note), octave });
            i = i + 1;
        }
        notes
    }
}

/// The quality of a chord: the semitones above the root at which its notes
/// lie.
#[derive(Debug, Clone, Copy, PartialEq, Eq)]
pub enum ChordKind {
    /// Root, major third, perfect fifth.
    Major,
    /// Root, minor third, perfect fifth.
    Minor,
    /// Root, minor third, diminished fifth.
    Diminished,
    /// Root, major third, augmented fifth.
    Augmented,
    /// The major triad with a major seventh.
    Major7,
    /// The minor triad with a minor seventh.
    Minor7,
    /// The major triad with a minor seventh.
    Dominant7,
    /// Intervals of the caller's choice.
    Custom(&'static [u8]),
}

impl ChordKind {
    /// The semitones above the root at which the notes of the chord lie.
    pub open spec fn pattern(self) -> Seq<u8> {
        match self {
            ChordKind::Major => seq![0u8, 4, 7],
            ChordKind::Minor => seq![0u8, 3, 7],
            ChordKind::Diminished => seq![0u8, 3, 6],
            ChordKind::Augmented => seq![0u8, 4, 8],
            ChordKind::Major7 => seq![0u8, 4, 7, 11],
            ChordKind::Minor7 => seq![0u8, 3, 7, 10],
            ChordKind::Dominant7 => seq![0u8, 4, 7, 10],
            ChordKind::Custom(intervals) => intervals@,
        }
    }

    /// The semitones above the root at which the notes of the chord lie.
    pub fn intervals(self) -> (steps: &'static [u8])
        ensures
            steps@ == self.pattern(),
    {
        match self {
            ChordKind::Major => &[0, 4, 7],
            ChordKind::Minor => &[0, 3, 7],
            ChordKind::Diminished => &[0, 3, 6],
            ChordKind::Augmented => &[0, 4, 8],
            ChordKind::Major7 => &[0, 4, 7, 11],
            ChordKind::Minor7 => &[0, 3, 7, 10],
            ChordKind::Dominant7 => &[0, 4, 7, 10],
            ChordKind::Custom(intervals) => intervals,
        }
    }
}

/// A chord: a root note and a quality.
#[derive(Debug, Clone, PartialEq, Eq)]
pub struct Chord {
    /// The note on which the chord is built.
    pub root: Note,
    /// The quality of the chord.
    pub kind: ChordKind,
}

impl Chord {
    /// The root lies in an octave that MIDI numbers reach without wrapping,
    /// and every note of the chord has a MIDI number within eight bits.
    pub open spec fn in_midi_reach(&self) -> bool {
        &&& -1 <= self.root.octave.number() <= 9
        &&& forall|k: int|
            0 <= k < self.kind.pattern().len() ==> self.root.semitones() + (
            #[trigger] self.kind.pattern()[k]) <= 255
    }

    /// The note that lies `interval` semitones above the root: its pitch
    /// class, and the octave of the root raised by the octave boundaries that
    /// the interval crosses.
    pub open spec fn note_above(&self, interval: int, note: Note) -> bool {
        let midi = self.root.semitones() + interval;
        &&& note.pitch_cls == PitchClass::of_semitones(midi % 12)
        &&& note.octave.number() == self.root.octave.number() + midi / 12 - self.root.semitones()
            / 12
    }

    /// The notes of the chord in ascending order: for each interval of its
    /// quality, the note that lies that far above the root.
    pub fn notes(&self) -> (notes: Vec<Note>)
        requires
            self.in_midi_reach(),
        ensures
            notes.len() == self.kind.pattern().len(),
            forall|k: int|
                0 <= k < notes.len() ==> self.note_above(
                    self.kind.pattern()[k] as int,
                    #[trigger] notes[k],
                ),
    {
        let root_midi: u8 = self.root.as_midi_number();
        let intervals = self.kind.intervals();
        let mut notes: Vec<Note> = Vec::new();
        let mut i: usize = 0;
        while i < intervals.len()
            invariant
                i <= intervals.len(),
                self.in_midi_reach(),
                intervals@ == self.kind.pattern(),
                root_midi == self.root.semitones(),
                notes.len() == i,
                forall|k: int|
                    0 <= k < i ==> self.note_above(
                        self.kind.pattern()[k] as int,
                        #[trigger] notes[k],
                    ),
            decreases intervals.len() - i,
        {
            let interval: u8 = intervals[i];
            assert(interval == self.kind.pattern()[i as int]);
            let new_midi: u8 = root_midi + interval;
            let octave_change: i8 = (new_midi / 12) as i8 - (root_midi / 12) as i8;
            let new_octave = Octave::new(self.root.octave.num() + octave_change);
            notes.push(Note { pitch_cls: PitchClass::from(new_midi % 12), octave: new_octave });
            i = i + 1;
        }
        notes
    }
}

/// A time signature: beats per measure over the note value that gets one
/// beat.
#[derive(Debug, Clone, Copy, PartialEq, Eq, Structural)]
pub struct TimeSignature(pub u8, pub u8);

/// A tempo in beats per minute.
#[derive(Debug, Clone, Copy, PartialEq, Eq, Structural)]
pub struct Tempo(pub u16);

/// The common tempo markings.
pub enum TempoMarkings {
    /// Very slow.
    Largo,
    /// Slow.
    Adagio,
    /// Walking pace.
    Andante,
    /// Moderate.
    Moderato,
    /// Fast.
    Allegro,
    /// Very fast.
    Presto,
}

impl TempoMarkings {
    /// The slowest and the fastest tempo that the marking covers, in beats
    /// per minute.
    pub open spec fn range(&self) -> (u16, u16) {
        match self {
            TempoMarkings::Largo => (40, 60),
            TempoMarkings::Adagio => (66, 76),
            TempoMarkings::Andante => (76, 108),
            TempoMarkings::Moderato => (108, 120),
            TempoMarkings::Allegro => (120, 168),
            TempoMarkings::Presto => (168, 200),
        }
    }

    /// The tempo in the middle of the range that the marking covers.
    pub open spec fn middle(&self) -> Tempo {
        Tempo(((self.range().0 + self.range().1) / 2) as u16)
    }

    /// The slowest and the fastest tempo that the marking covers, in beats
    /// per minute.
    pub fn bpm_range(&self) -> (range: (u16, u16))
        ensures
            range == self.range(),
            range.0 <= range.1 <= 200,
    {
        match self {
            TempoMarkings::Largo => (40, 60),
            TempoMarkings::Adagio => (66, 76),
            TempoMarkings::Andante => (76, 108),
            TempoMarkings::Moderato => (108, 120),
            TempoMarkings::Allegro => (120, 168),
            TempoMarkings::Presto => (168, 200),
        }
    }

    /// The tempo in the middle of the range that the marking covers.
    pub fn to_tempo(&self) -> (tempo: Tempo)
        ensures
            tempo == self.middle(),
    {
        let (min_bpm, max_bpm) = self.bpm_range();
        Tempo((min_bpm + max_bpm) / 2)
    }
}

impl vstd::std_specs::convert::IntoSpecImpl<Tempo> for TempoMarkings {
    open spec fn obeys_into_spec() -> bool {
        true
    }

    open spec fn into_spec(self) -> Tempo {
        self.middle()
    }
}

impl Into<Tempo> for TempoMarkings {
    fn into(self) -> (tempo: Tempo) {
        let (min_bpm, max_bpm) = self.bpm_range();
        Tempo((min_bpm + max_bpm) / 2)
    }
}

} // verus!
