use cgmath::{
    BaseFloat, Deg, InnerSpace, Matrix, Matrix3, One, Point3, Quaternion, Rotation3, SquareMatrix,
    Vector3, Zero,
};
use rhusics_core::algebra::{Angular, Inertia, LinearVector, Point, Scalar};
use rhusics_core::body::{BodyPose, Contact, Mass, Material, NextFrame, Velocity};
use rhusics_core::resolution::{resolve_contact_with, CorrectionSettings, ResolveData};

// The algebra of space, with cgmath doing the arithmetic.

#[derive(Clone, Copy, Debug, PartialEq)]
struct Num<T>(T);

impl<T: BaseFloat> Scalar for Num<T> {
    fn zero() -> Self {
        Num(T::zero())
    }

    fn one() -> Self {
        Num(T::one())
    }

    fn ratio(numerator: u32, denominator: u32) -> Self {
        Num(T::from(numerator).unwrap() / T::from(denominator).unwrap())
    }

    fn plus(self, rhs: Self) -> Self {
        Num(self.0 + rhs.0)
    }

    fn minus(self, rhs: Self) -> Self {
        Num(self.0 - rhs.0)
    }

    fn times(self, rhs: Self) -> Self {
        Num(self.0 * rhs.0)
    }

    fn over(self, rhs: Self) -> Self {
        assert!(rhs.0 != T::zero());
        Num(self.0 / rhs.0)
    }

    fn negated(self) -> Self {
        Num(-self.0)
    }

    fn is_zero(self) -> bool {
        self.0 == T::zero()
    }

    fn exceeds(self, rhs: Self) -> bool {
        self.0 > rhs.0
    }
}

#[derive(Clone, Copy, Debug, PartialEq)]
struct Vec3<T>(Vector3<T>);

impl<T: BaseFloat> LinearVector for Vec3<T> {
    type Scalar = Num<T>;

    fn zero() -> Self {
        Vec3(Vector3::zero())
    }

    fn plus(self, rhs: Self) -> Self {
        Vec3(self.0 + rhs.0)
    }

    fn minus(self, rhs: Self) -> Self {
        Vec3(self.0 - rhs.0)
    }

    fn scaled(self, by: Num<T>) -> Self {
        Vec3(self.0 * by.0)
    }

    fn dot(self, rhs: Self) -> Num<T> {
        Num(self.0.dot(rhs.0))
    }
}

#[derive(Clone, Copy, Debug, PartialEq)]
struct Pt3<T>(Point3<T>);

impl<T: BaseFloat> Point for Pt3<T> {
    type Scalar = Num<T>;
    type Vector = Vec3<T>;

    fn translated(self, by: Vec3<T>) -> Self {
        Pt3(self.0 + by.0)
    }

    fn displacement(self, from: Self) -> Vec3<T> {
        Vec3(self.0 - from.0)
    }
}

#[derive(Clone, Copy, Debug, PartialEq)]
struct Spin3<T>(Vector3<T>);

impl<T: BaseFloat> Angular for Spin3<T> {
    type Vector = Vec3<T>;

    fn zero() -> Self {
        Spin3(Vector3::zero())
    }

    fn plus(self, rhs: Self) -> Self {
        Spin3(self.0 + rhs.0)
    }

    fn minus(self, rhs: Self) -> Self {
        Spin3(self.0 - rhs.0)
    }

    fn cross(self, lever: Vec3<T>) -> Vec3<T> {
        Vec3(self.0.cross(lever.0))
    }

    fn moment(lever: Vec3<T>, linear: Vec3<T>) -> Self {
        Spin3(lever.0.cross(linear.0))
    }
}

#[derive(Clone, Copy, Debug, PartialEq)]
struct Inertia3<T>(Matrix3<T>);

impl<T: BaseFloat> Inertia for Inertia3<T> {
    type Orientation = Quaternion<T>;
    type Angular = Spin3<T>;

    fn tensor(self, orientation: Quaternion<T>) -> Self {
        let turn = Matrix3::from(orientation);
        Inertia3(turn * (self.0 * turn.transpose()))
    }

    fn invert(self) -> Self {
        if self.0.determinant() == T::zero() {
            Inertia3(Matrix3::zero())
        } else {
            Inertia3(SquareMatrix::invert(&self.0).unwrap())
        }
    }

    fn apply(self, to: Spin3<T>) -> Spin3<T> {
        Spin3(self.0 * to.0)
    }
}

type Pose3 = BodyPose<Pt3<f64>, Quaternion<f64>>;
type Velocity3 = Velocity<Vec3<f64>, Spin3<f64>>;

fn pose(x: f64, y: f64, z: f64) -> Pose3 {
    BodyPose::new(Pt3(Point3::new(x, y, z)), Quaternion::one())
}

fn moving(linear: [f64; 3], angular: [f64; 3]) -> NextFrame<Velocity3> {
    NextFrame { value: Velocity::new(Vec3(Vector3::from(linear)), Spin3(Vector3::from(angular))) }
}

fn exact() -> CorrectionSettings<Num<f64>> {
    CorrectionSettings::new(Num(0.5), Num(0.25))
}

#[test]
fn spheres_meeting_head_on_swap_velocities() {
    let mass = Mass::new_with_inertia(Num(2.), Inertia3(Matrix3::from_value(0.)));
    assert_eq!(mass.inverse_mass(), Num(0.5));
    assert_eq!(mass.inverse_inertia, Inertia3(Matrix3::zero()));
    let material = Material::new(Num(1.), Num(1.));
    let (left, right) = (moving([1., 0., 0.], [0.; 3]), moving([-2., 0., 0.], [0.; 3]));
    let (left_pose, right_pose) = (pose(0., 0., 0.), pose(1., 0., 0.));
    let contact =
        Contact::new(Vec3(Vector3::unit_x()), Num(1.25), Pt3(Point3::new(0.5, 0., 0.)));
    let (a, b) = resolve_contact_with(
        &exact(),
        &contact,
        ResolveData { velocity: Some(&left), pose: &left_pose, mass: &mass, material: &material },
        ResolveData { velocity: Some(&right), pose: &right_pose, mass: &mass, material: &material },
    );
    assert_eq!(a.pose, Some(pose(-0.25, 0., 0.)));
    assert_eq!(b.pose, Some(pose(1.25, 0., 0.)));
    assert_eq!(a.velocity, Some(moving([-2., 0., 0.], [0.; 3])));
    assert_eq!(b.velocity, Some(moving([1., 0., 0.], [0.; 3])));
}

#[test]
fn off_centre_contact_turns_the_bodies_about_the_third_axis() {
    let mass = Mass::new_with_inertia(Num(1.), Inertia3(Matrix3::from_value(1.)));
    assert_eq!(mass.inverse_inertia, Inertia3(Matrix3::from_value(1.)));
    let material = Material::new(Num(1.), Num(1.));
    let (left, right) = (moving([1., 0., 0.], [0.; 3]), moving([-1., 0., 0.], [0.; 3]));
    let (left_pose, right_pose) = (pose(0., 0., 0.), pose(2., 0., 0.));
    let contact = Contact::new(Vec3(Vector3::unit_x()), Num(0.), Pt3(Point3::new(1., 1., 0.)));
    let (a, b) = resolve_contact_with(
        &exact(),
        &contact,
        ResolveData { velocity: Some(&left), pose: &left_pose, mass: &mass, material: &material },
        ResolveData { velocity: Some(&right), pose: &right_pose, mass: &mass, material: &material },
    );
    assert_eq!(a.velocity, Some(moving([0., 0., 0.], [0., 0., 1.])));
    assert_eq!(b.velocity, Some(moving([0., 0., 0.], [0., 0., -1.])));
}

#[test]
fn world_inertia_follows_the_orientation() {
    let body = Mass::new_with_inertia(
        Num(1.),
        Inertia3(Matrix3::from_diagonal(Vector3::new(1., 2., 4.))),
    );
    assert_eq!(
        body.inverse_inertia,
        Inertia3(Matrix3::from_diagonal(Vector3::new(1., 0.5, 0.25)))
    );
    let upright = body.world_inverse_inertia(&Quaternion::one());
    assert_eq!(upright, body.inverse_inertia);
    // A quarter turn about the third axis swaps the first two axes.
    let turned = body.world_inverse_inertia(&Quaternion::from_angle_z(Deg(90.)));
    let wanted: Matrix3<f64> = Matrix3::from_diagonal(Vector3::new(0.5, 1., 0.25));
    for column in 0..3 {
        for row in 0..3 {
            let off: f64 = turned.0[column][row] - wanted[column][row];
            assert!(off.abs() < 1e-12);
        }
    }
}

#[test]
fn ratio_of_the_standard_settings_in_double_precision() {
    let settings = CorrectionSettings::<Num<f64>>::standard();
    assert_eq!(settings.percent, Num(0.2));
    assert_eq!(settings.slop, Num(0.01));
}
